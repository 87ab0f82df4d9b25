//! The filter-graph synthesizer: a pure mapping from conversion options to
//! the textual filter chain, the bounce split/reverse/concat topology both
//! passes embed, and the quality-driven dither policy.
use vstd::prelude::*;
use vstd::string::StringExecFns;
use crate::options::ConversionOptions;
use crate::options::OptionsView;
use crate::options::spec_clamp_fps;
use crate::options::spec_clamp_speed_tenths;
use crate::options::spec_scale;
use crate::text::digit_char;
use crate::text::digit_str;
use crate::text::spec_dec;
use crate::text::u16_dec;

verus! {

/// The sequence an optional field holds, or the empty sequence.
pub open spec fn opt_seq(x: Option<Seq<char>>) -> Seq<char> {
    match x {
        Some(s) => s,
        None => Seq::empty(),
    }
}

/// A start time is present and non-empty.
pub open spec fn spec_has_start(o: OptionsView) -> bool {
    match o.start_time {
        Some(s) => s.len() > 0,
        None => false,
    }
}

/// An end time is present and non-empty.
pub open spec fn spec_has_end(o: OptionsView) -> bool {
    match o.end_time {
        Some(s) => s.len() > 0,
        None => false,
    }
}

/// The chain opens with a trim stage.
pub open spec fn spec_trimmed(o: OptionsView) -> bool {
    spec_has_start(o) || spec_has_end(o)
}

/// The trim stage: whichever of the two bounds are present, each quoted
/// verbatim so a colon inside a timestamp survives.
pub open spec fn spec_trim_stage(o: OptionsView) -> Seq<char> {
    let start = "start='"@ + opt_seq(o.start_time) + "'"@;
    let end = "end='"@ + opt_seq(o.end_time) + "'"@;
    if spec_has_start(o) && spec_has_end(o) {
        "trim="@ + start + ":"@ + end
    } else if spec_has_start(o) {
        "trim="@ + start
    } else {
        "trim="@ + end
    }
}

/// Decimal rendering of a value in tenths: the whole part, then a point
/// and one fractional digit only when the fraction is non-zero.
pub open spec fn spec_tenths_str(t: nat) -> Seq<char> {
    if t % 10 == 0 {
        spec_dec(t / 10)
    } else {
        spec_dec(t / 10) + seq!['.'] + seq![digit_char(t % 10)]
    }
}

/// The effective speed as it appears in the timestamp stage.
pub open spec fn spec_speed_str(o: OptionsView) -> Seq<char> {
    spec_tenths_str(spec_clamp_speed_tenths(o.speed_tenths))
}

/// The frame-rate stage, with the clamped rate.
pub open spec fn spec_fps_stage(o: OptionsView) -> Seq<char> {
    "fps="@ + spec_dec(spec_clamp_fps(o.fps))
}

/// The timestamp stage: when a trim stage ran, presentation timestamps are
/// reset to zero before the division by speed; otherwise they are divided
/// directly.
pub open spec fn spec_ts_stage(o: OptionsView) -> Seq<char> {
    if spec_trimmed(o) {
        "setpts=(PTS-STARTPTS)/"@ + spec_speed_str(o)
    } else {
        "setpts=PTS/"@ + spec_speed_str(o)
    }
}

/// The ordered stages of the base chain: an optional leading trim stage,
/// then exactly the frame-rate, scale and timestamp stages.
pub open spec fn spec_stages(o: OptionsView) -> Seq<Seq<char>> {
    (if spec_trimmed(o) {
        seq![spec_trim_stage(o)]
    } else {
        Seq::empty()
    }) + seq![spec_fps_stage(o), spec_scale(o.resize), spec_ts_stage(o)]
}

/// Stages joined into one comma-separated chain.
pub open spec fn spec_join_comma(ss: Seq<Seq<char>>) -> Seq<char>
    decreases ss.len(),
{
    if ss.len() == 0 {
        Seq::empty()
    } else if ss.len() == 1 {
        ss[0]
    } else {
        ss[0] + seq![','] + spec_join_comma(ss.drop_first())
    }
}

/// The base filter chain: the joined stages, reused verbatim by both
/// passes.
pub open spec fn spec_base_chain(o: OptionsView) -> Seq<char> {
    spec_join_comma(spec_stages(o))
}

/// Law: the base chain consists of exactly one frame-rate stage, one
/// scale stage and one timestamp stage, in that order, behind at most one
/// leading trim stage — for every choice of options.
pub proof fn lemma_base_chain_shape(o: OptionsView)
    ensures
        spec_trimmed(o) ==> spec_stages(o) =~= seq![
            spec_trim_stage(o),
            spec_fps_stage(o),
            spec_scale(o.resize),
            spec_ts_stage(o),
        ],
        !spec_trimmed(o) ==> spec_stages(o) =~= seq![
            spec_fps_stage(o),
            spec_scale(o.resize),
            spec_ts_stage(o),
        ],
        spec_base_chain(o) == spec_join_comma(spec_stages(o)),
{
}

/// Renders a speed in tenths, omitting a zero fraction.
pub fn tenths_str(t: u16) -> (r: String)
    ensures
        r@ == spec_tenths_str(t as nat),
{
    let whole = u16_dec(t / 10);
    if t % 10 == 0 {
        whole
    } else {
        proof {
            reveal_strlit(".");
        }
        let r = whole.concat(".").concat(digit_str((t % 10) as u8));
        proof {
            assert(r@ =~= spec_tenths_str(t as nat));
        }
        r
    }
}

/// Synthesizes the base filter chain and reports whether it opens with a
/// trim stage.
#[verifier::rlimit(60)]
pub fn base_filter_chain(o: &ConversionOptions) -> (r: (String, bool))
    ensures
        r.0@ == spec_base_chain(o@),
        r.1 == spec_trimmed(o@),
{
    let has_start = match &o.start_time {
        Some(s) => !s.as_str().is_empty(),
        None => false,
    };
    let has_end = match &o.end_time {
        Some(s) => !s.as_str().is_empty(),
        None => false,
    };
    let trimmed = has_start || has_end;

    let mut chain = String::new();
    if trimmed {
        chain.append("trim=");
        if has_start {
            chain.append("start='");
            match &o.start_time {
                Some(s) => chain.append(s.as_str()),
                None => (),
            }
            chain.append("'");
        }
        if has_start && has_end {
            chain.append(":");
        }
        if has_end {
            chain.append("end='");
            match &o.end_time {
                Some(s) => chain.append(s.as_str()),
                None => (),
            }
            chain.append("'");
        }
        chain.append(",");
        proof {
            reveal_strlit(",");
            assert(chain@ =~= spec_trim_stage(o@) + seq![',']);
        }
    }
    chain.append("fps=");
    let fps = o.effective_fps();
    chain.append(u16_dec(fps as u16).as_str());
    chain.append(",");
    chain.append(o.resize.to_ffmpeg_scale());
    chain.append(",");
    if trimmed {
        chain.append("setpts=(PTS-STARTPTS)/");
    } else {
        chain.append("setpts=PTS/");
    }
    chain.append(tenths_str(o.effective_speed_tenths()).as_str());
    proof {
        reveal_strlit(",");
        let tr = spec_trim_stage(o@);
        let f = spec_fps_stage(o@);
        let sc = spec_scale(o@.resize);
        let ts = spec_ts_stage(o@);
        let tail2 = sc + seq![','] + ts;
        let tail3 = f + seq![','] + tail2;
        assert(seq![sc, ts].drop_first() =~= seq![ts]);
        assert(spec_join_comma(seq![ts]) == ts);
        assert(spec_join_comma(seq![sc, ts]) =~= tail2);
        assert(seq![f, sc, ts].drop_first() =~= seq![sc, ts]);
        assert(spec_join_comma(seq![f, sc, ts]) =~= tail3);
        let ss = spec_stages(o@);
        if spec_trimmed(o@) {
            assert(ss =~= seq![tr, f, sc, ts]);
            assert(ss.drop_first() =~= seq![f, sc, ts]);
            assert(spec_base_chain(o@) =~= tr + seq![','] + tail3);
            assert(chain@ =~= tr + seq![','] + tail3);
        } else {
            assert(ss =~= seq![f, sc, ts]);
            assert(spec_base_chain(o@) =~= tail3);
            assert(chain@ =~= tail3);
        }
    }
    (chain, trimmed)
}

/// The dither algorithm each quality tier selects; both boundary values
/// take the lower-fidelity branch.
pub open spec fn spec_dither(q: nat) -> Seq<char> {
    if q > 85 {
        "sierra2_4a"@
    } else if q > 60 {
        "bayer"@
    } else {
        "none"@
    }
}

/// Selects the dither algorithm for a quality level.
pub fn dither_option(quality: u8) -> (r: &'static str)
    ensures
        r@ == spec_dither(quality as nat),
{
    if quality > 85 {
        "sierra2_4a"
    } else if quality > 60 {
        "bayer"
    } else {
        "none"
    }
}

/// The branching fragment of bounce mode: the base chain applied once to
/// the input, split into two labelled copies, one reversed, forward then
/// reversed concatenated back into a single video stream.
pub open spec fn spec_bounce_core(base: Seq<char>) -> Seq<char> {
    "[0:v]"@ + base + ",split[a][b];[b]reverse[r];[a][r]concat=n=2:v=1:a=0"@
}

/// The graph argument of the palette pass: the bounce fragment or the
/// plain base chain, then full-statistics palette generation.
pub open spec fn spec_palette_graph(o: OptionsView) -> Seq<char> {
    if o.loop_opt is Bounce {
        spec_bounce_core(spec_base_chain(o)) + ",palettegen=stats_mode=full"@
    } else {
        spec_base_chain(o) + ",palettegen=stats_mode=full"@
    }
}

/// The graph argument of the encode pass: the same topology, terminated by
/// palette-constrained quantization with the selected dither algorithm.
pub open spec fn spec_encode_graph(o: OptionsView) -> Seq<char> {
    if o.loop_opt is Bounce {
        spec_bounce_core(spec_base_chain(o)) + "[v];[v][1:v]paletteuse=dither="@ + spec_dither(
            o.quality,
        )
    } else {
        "[0:v]"@ + spec_base_chain(o) + "[v];[v][1:v]paletteuse=dither="@ + spec_dither(o.quality)
    }
}

/// Law: in bounce mode both passes embed the very same base chain, applied
/// exactly once ahead of the split — so the forward and the reversed copy
/// always undergo identical trim, frame-rate, scale and speed treatment —
/// and everything after the chain is independent of the trim, speed, rate
/// and scale options.
pub proof fn lemma_bounce_applies_base_once(o: OptionsView)
    requires
        o.loop_opt is Bounce,
    ensures
        spec_palette_graph(o) == "[0:v]"@ + spec_base_chain(o)
            + ",split[a][b];[b]reverse[r];[a][r]concat=n=2:v=1:a=0"@
            + ",palettegen=stats_mode=full"@,
        spec_encode_graph(o) == "[0:v]"@ + spec_base_chain(o)
            + ",split[a][b];[b]reverse[r];[a][r]concat=n=2:v=1:a=0"@
            + "[v];[v][1:v]paletteuse=dither="@ + spec_dither(o.quality),
{
}

/// Synthesizes the palette-pass graph argument.
pub fn palette_graph(o: &ConversionOptions) -> (r: String)
    ensures
        r@ == spec_palette_graph(o@),
{
    let (base, _) = base_filter_chain(o);
    let bounce = matches!(o.loop_opt, crate::options::LoopOption::Bounce);
    if bounce {
        let mut g = String::from_str("[0:v]");
        g.append(base.as_str());
        g.append(",split[a][b];[b]reverse[r];[a][r]concat=n=2:v=1:a=0");
        g.append(",palettegen=stats_mode=full");
        proof {
            assert(g@ =~= spec_palette_graph(o@));
        }
        g
    } else {
        let mut g = base;
        g.append(",palettegen=stats_mode=full");
        proof {
            assert(g@ =~= spec_palette_graph(o@));
        }
        g
    }
}

/// Synthesizes the encode-pass graph argument.
pub fn encode_graph(o: &ConversionOptions) -> (r: String)
    ensures
        r@ == spec_encode_graph(o@),
{
    let (base, _) = base_filter_chain(o);
    let bounce = matches!(o.loop_opt, crate::options::LoopOption::Bounce);
    let mut g = String::from_str("[0:v]");
    g.append(base.as_str());
    if bounce {
        g.append(",split[a][b];[b]reverse[r];[a][r]concat=n=2:v=1:a=0");
    }
    g.append("[v];[v][1:v]paletteuse=dither=");
    g.append(dither_option(o.quality));
    proof {
        assert(g@ =~= spec_encode_graph(o@));
    }
    g
}

} // verus!
