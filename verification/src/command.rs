//! Construction of the two external-tool invocations: the palette pass and
//! the palette-constrained encode pass, with the loop-count argument rules.
use vstd::prelude::*;
use vstd::string::StringExecFns;
use crate::filter::encode_graph;
use crate::filter::palette_graph;
use crate::filter::spec_encode_graph;
use crate::filter::spec_palette_graph;
use crate::options::ConversionOptions;
use crate::options::LoopOption;
use crate::options::OptionsView;
use crate::text::i16_dec;
use crate::text::spec_signed_dec;

verus! {

/// The character sequences a vector of strings holds.
pub open spec fn views_of(v: Seq<String>) -> Seq<Seq<char>> {
    v.map_values(|s: String| s@)
}

/// The full argument vector of the palette pass, program name first: one
/// input, the graph argument (a branching graph for bounce, a plain chain
/// otherwise), and the overwritten palette artifact path.
pub open spec fn spec_palette_argv(o: OptionsView, input: Seq<char>, palette: Seq<char>) -> Seq<
    Seq<char>,
> {
    if o.loop_opt is Bounce {
        seq!["ffmpeg"@, "-i"@, input, "-filter_complex"@, spec_palette_graph(o), "-y"@, palette]
    } else {
        seq!["ffmpeg"@, "-i"@, input, "-vf"@, spec_palette_graph(o), "-y"@, palette]
    }
}

/// The loop-count arguments: present meaning infinite for `Forever`,
/// present verbatim for `Count`, absent for `Bounce`, whose looping is
/// structural.
pub open spec fn spec_loop_args(l: LoopOption) -> Seq<Seq<char>> {
    match l {
        LoopOption::Forever => seq!["-loop"@, "0"@],
        LoopOption::Bounce => Seq::empty(),
        LoopOption::Count(n) => seq!["-loop"@, spec_signed_dec(n as int)],
    }
}

/// The full argument vector of the encode pass, program name first: the
/// original media and the generated palette as inputs, the mirrored graph
/// argument, the loop-count arguments, and the overwritten output path.
pub open spec fn spec_encode_argv(
    o: OptionsView,
    input: Seq<char>,
    palette: Seq<char>,
    output: Seq<char>,
) -> Seq<Seq<char>> {
    seq!["ffmpeg"@, "-i"@, input, "-i"@, palette, "-filter_complex"@, spec_encode_graph(o)]
        + spec_loop_args(o.loop_opt) + seq!["-y"@, output]
}

/// Builds the palette-pass argument vector.
pub fn build_palette_argv(o: &ConversionOptions, input_path: &str, palette_path: &str) -> (r: Vec<
    String,
>)
    ensures
        views_of(r@) == spec_palette_argv(o@, input_path@, palette_path@),
{
    let mut r: Vec<String> = Vec::new();
    r.push(String::from_str("ffmpeg"));
    r.push(String::from_str("-i"));
    r.push(String::from_str(input_path));
    if matches!(o.loop_opt, LoopOption::Bounce) {
        r.push(String::from_str("-filter_complex"));
    } else {
        r.push(String::from_str("-vf"));
    }
    r.push(palette_graph(o));
    r.push(String::from_str("-y"));
    r.push(String::from_str(palette_path));
    proof {
        assert(views_of(r@) =~= spec_palette_argv(o@, input_path@, palette_path@));
    }
    r
}

/// Builds the encode-pass argument vector.
pub fn build_encode_argv(
    o: &ConversionOptions,
    input_path: &str,
    palette_path: &str,
    output_path: &str,
) -> (r: Vec<String>)
    ensures
        views_of(r@) == spec_encode_argv(o@, input_path@, palette_path@, output_path@),
{
    let mut r: Vec<String> = Vec::new();
    r.push(String::from_str("ffmpeg"));
    r.push(String::from_str("-i"));
    r.push(String::from_str(input_path));
    r.push(String::from_str("-i"));
    r.push(String::from_str(palette_path));
    r.push(String::from_str("-filter_complex"));
    r.push(encode_graph(o));
    match o.loop_opt {
        LoopOption::Count(n) => {
            r.push(String::from_str("-loop"));
            r.push(i16_dec(n));
        },
        LoopOption::Forever => {
            r.push(String::from_str("-loop"));
            r.push(String::from_str("0"));
        },
        LoopOption::Bounce => {},
    }
    r.push(String::from_str("-y"));
    r.push(String::from_str(output_path));
    proof {
        assert(views_of(r@) =~= spec_encode_argv(o@, input_path@, palette_path@, output_path@));
    }
    r
}

/// Law: loop-count argument presence. `Forever` contributes the argument
/// with the value meaning infinite, `Count` contributes it verbatim, and
/// `Bounce` contributes none.
pub proof fn lemma_loop_arg_presence(l: LoopOption)
    ensures
        l is Forever ==> spec_loop_args(l) =~= seq!["-loop"@, "0"@],
        l is Bounce ==> spec_loop_args(l) =~= Seq::<Seq<char>>::empty(),
        forall|n: i16| l == LoopOption::Count(n) ==> spec_loop_args(l) =~= seq![
            "-loop"@,
            spec_signed_dec(n as int),
        ],
{
}

/// Law: re-running a request with the same options against the same input
/// yields the same encode parameters; fresh artifact names change only the
/// argument positions that hold the artifact paths (the palette path and,
/// in the encode pass, the output path, which is always last).
pub proof fn lemma_argv_depends_on_options_alone(
    o: OptionsView,
    input: Seq<char>,
    p1: Seq<char>,
    p2: Seq<char>,
    out1: Seq<char>,
    out2: Seq<char>,
)
    ensures
        spec_palette_argv(o, input, p1).len() == spec_palette_argv(o, input, p2).len(),
        spec_palette_argv(o, input, p1).last() == p1,
        forall|i: int|
            0 <= i < spec_palette_argv(o, input, p1).len() - 1 ==> spec_palette_argv(
                o,
                input,
                p1,
            )[i] == spec_palette_argv(o, input, p2)[i],
        spec_encode_argv(o, input, p1, out1).len() == spec_encode_argv(o, input, p2, out2).len(),
        spec_encode_argv(o, input, p1, out1)[4] == p1,
        spec_encode_argv(o, input, p1, out1).last() == out1,
        forall|i: int|
            0 <= i < spec_encode_argv(o, input, p1, out1).len() - 1 && i != 4 ==> spec_encode_argv(
                o,
                input,
                p1,
                out1,
            )[i] == spec_encode_argv(o, input, p2, out2)[i],
{
}

/// A request-scoped encode job: the three artifact paths and the two
/// synthesized invocations, all derived once from the options.
pub struct EncodeJob {
    pub input_path: String,
    pub palette_path: String,
    pub output_path: String,
    pub palette_argv: Vec<String>,
    pub encode_argv: Vec<String>,
}

impl EncodeJob {
    /// Derives the two invocations of a request from its options and
    /// artifact paths.
    pub fn new(o: &ConversionOptions, input_path: &str, palette_path: &str, output_path: &str) -> (r:
        EncodeJob)
        ensures
            r.input_path@ == input_path@,
            r.palette_path@ == palette_path@,
            r.output_path@ == output_path@,
            views_of(r.palette_argv@) == spec_palette_argv(o@, input_path@, palette_path@),
            views_of(r.encode_argv@) == spec_encode_argv(
                o@,
                input_path@,
                palette_path@,
                output_path@,
            ),
    {
        EncodeJob {
            input_path: String::from_str(input_path),
            palette_path: String::from_str(palette_path),
            output_path: String::from_str(output_path),
            palette_argv: build_palette_argv(o, input_path, palette_path),
            encode_argv: build_encode_argv(o, input_path, palette_path, output_path),
        }
    }
}

} // verus!
