//! The option model: typed conversion preferences with defaults, the
//! lenient field-by-field parser that never rejects a request, and the
//! clamping that runs before graph synthesis.
//!
//! Playback speed is modelled in tenths of the nominal rate, an exact
//! fixed-point form of the supported half-to-five-times range.
use vstd::prelude::*;
use vstd::string::StringExecFns;
use crate::text::parse_i16;
use crate::text::parse_speed_tenths;
use crate::text::parse_u8;
use crate::text::signed_val;
use crate::text::speed_tenths;
use crate::text::str_eq;
use crate::text::unsigned_val;
use crate::text::valid_signed;
use crate::text::valid_speed;
use crate::text::valid_unsigned;

verus! {

/// Spatial scale selection, as a percentage of the source size.
#[derive(Clone, Copy, Debug, PartialEq, Eq, Structural)]
pub enum ResizeOption {
    _100,
    _75,
    _50,
    _25,
}

impl Default for ResizeOption {
    fn default() -> (r: Self)
        ensures
            r == ResizeOption::_75,
    {
        ResizeOption::_75
    }
}

/// The scale stage each resize selection maps to.
pub open spec fn spec_scale(r: ResizeOption) -> Seq<char> {
    match r {
        ResizeOption::_100 => "scale=iw:ih"@,
        ResizeOption::_75 => "scale=iw*0.75:ih*0.75"@,
        ResizeOption::_50 => "scale=iw*0.5:ih*0.5"@,
        ResizeOption::_25 => "scale=iw*0.25:ih*0.25"@,
    }
}

impl ResizeOption {
    /// The fixed scale expression for this resize selection.
    pub fn to_ffmpeg_scale(&self) -> (r: &'static str)
        ensures
            r@ == spec_scale(*self),
    {
        match self {
            ResizeOption::_100 => "scale=iw:ih",
            ResizeOption::_75 => "scale=iw*0.75:ih*0.75",
            ResizeOption::_50 => "scale=iw*0.5:ih*0.5",
            ResizeOption::_25 => "scale=iw*0.25:ih*0.25",
        }
    }
}

/// Loop behaviour of the produced image: repeat forever, play forward then
/// backward, or repeat a caller-given number of times.
#[derive(Clone, Copy, Debug, PartialEq, Eq, Structural)]
pub enum LoopOption {
    Forever,
    Bounce,
    Count(i16),
}

impl Default for LoopOption {
    fn default() -> (r: Self)
        ensures
            r == LoopOption::Forever,
    {
        LoopOption::Forever
    }
}

/// Default playback speed, in tenths: the nominal rate.
pub fn default_speed() -> (r: u16)
    ensures
        r == 10,
{
    10
}

/// Default frame rate before clamping.
pub fn default_fps() -> (r: u8)
    ensures
        r == 8,
{
    8
}

/// Default quality level.
pub fn default_quality() -> (r: u8)
    ensures
        r == 75,
{
    75
}

/// Request-scoped conversion preferences. `speed_tenths`, `fps` and
/// `quality` hold the raw parsed values; clamping happens on the way into
/// graph synthesis, never at parse time.
#[derive(Debug)]
pub struct ConversionOptions {
    pub resize: ResizeOption,
    pub speed_tenths: u16,
    pub fps: u8,
    pub quality: u8,
    pub loop_opt: LoopOption,
    pub start_time: Option<String>,
    pub end_time: Option<String>,
}

/// Mathematical model of a set of conversion preferences.
pub struct OptionsView {
    pub resize: ResizeOption,
    pub speed_tenths: nat,
    pub fps: nat,
    pub quality: nat,
    pub loop_opt: LoopOption,
    pub start_time: Option<Seq<char>>,
    pub end_time: Option<Seq<char>>,
}

impl View for ConversionOptions {
    type V = OptionsView;

    open spec fn view(&self) -> OptionsView {
        OptionsView {
            resize: self.resize,
            speed_tenths: self.speed_tenths as nat,
            fps: self.fps as nat,
            quality: self.quality as nat,
            loop_opt: self.loop_opt,
            start_time: match self.start_time {
                Some(s) => Some(s@),
                None => None,
            },
            end_time: match self.end_time {
                Some(s) => Some(s@),
                None => None,
            },
        }
    }
}

/// The default preferences of a fresh request.
pub open spec fn spec_default_options() -> OptionsView {
    OptionsView {
        resize: ResizeOption::_75,
        speed_tenths: 10,
        fps: 8,
        quality: 75,
        loop_opt: LoopOption::Forever,
        start_time: None,
        end_time: None,
    }
}

impl Default for ConversionOptions {
    fn default() -> (r: Self)
        ensures
            r@ == spec_default_options(),
    {
        ConversionOptions {
            resize: ResizeOption::_75,
            speed_tenths: 10,
            fps: 8,
            quality: 75,
            loop_opt: LoopOption::Forever,
            start_time: None,
            end_time: None,
        }
    }
}

/// The resize selection a raw field value maps to: a total mapping with
/// the three-quarter default for anything unrecognized.
pub open spec fn spec_resize_of(v: Seq<char>) -> ResizeOption {
    if v == "100"@ {
        ResizeOption::_100
    } else if v == "50"@ {
        ResizeOption::_50
    } else if v == "25"@ {
        ResizeOption::_25
    } else {
        ResizeOption::_75
    }
}

/// The loop selection a raw field value maps to: the two named modes, then
/// a signed sixteen-bit count, then the default.
pub open spec fn spec_loop_of(v: Seq<char>) -> LoopOption {
    if v == "forever"@ {
        LoopOption::Forever
    } else if v == "bounce"@ {
        LoopOption::Bounce
    } else if valid_signed(v) && -32768 <= signed_val(v) <= 32767 {
        LoopOption::Count(signed_val(v) as i16)
    } else {
        LoopOption::Forever
    }
}

/// The speed in tenths a raw field value maps to, saturated to the
/// representable range; unparseable input falls back to the default.
pub open spec fn spec_speed_of(v: Seq<char>) -> nat {
    if valid_speed(v) {
        if speed_tenths(v) > 65535 {
            65535
        } else {
            speed_tenths(v)
        }
    } else {
        10
    }
}

/// The frame rate a raw field value maps to; unparseable input falls back
/// to the default.
pub open spec fn spec_fps_of(v: Seq<char>) -> nat {
    if valid_unsigned(v) && unsigned_val(v) <= 255 {
        unsigned_val(v)
    } else {
        8
    }
}

/// The quality a raw field value maps to; unparseable input falls back to
/// the default.
pub open spec fn spec_quality_of(v: Seq<char>) -> nat {
    if valid_unsigned(v) && unsigned_val(v) <= 255 {
        unsigned_val(v)
    } else {
        75
    }
}

/// The options after one form field is applied: recognized fields replace
/// their member, unknown fields change nothing, and no value is ever
/// rejected.
pub open spec fn spec_apply_field(o: OptionsView, name: Seq<char>, value: Seq<char>) -> OptionsView {
    if name == "resize"@ {
        OptionsView { resize: spec_resize_of(value), ..o }
    } else if name == "speed"@ {
        OptionsView { speed_tenths: spec_speed_of(value), ..o }
    } else if name == "fps"@ {
        OptionsView { fps: spec_fps_of(value), ..o }
    } else if name == "quality"@ {
        OptionsView { quality: spec_quality_of(value), ..o }
    } else if name == "loop"@ {
        OptionsView { loop_opt: spec_loop_of(value), ..o }
    } else if name == "start_time"@ {
        OptionsView { start_time: Some(value), ..o }
    } else if name == "end_time"@ {
        OptionsView { end_time: Some(value), ..o }
    } else {
        o
    }
}

/// The options after a whole sequence of form fields is applied in order,
/// starting from the given state.
pub open spec fn spec_apply_fields(o: OptionsView, fields: Seq<(Seq<char>, Seq<char>)>) -> OptionsView
    decreases fields.len(),
{
    if fields.len() == 0 {
        o
    } else {
        spec_apply_fields(spec_apply_field(o, fields[0].0, fields[0].1), fields.drop_first())
    }
}

proof fn lemma_apply_fields_snoc(
    o: OptionsView,
    s: Seq<(Seq<char>, Seq<char>)>,
    x: (Seq<char>, Seq<char>),
)
    ensures
        spec_apply_fields(o, s.push(x)) == spec_apply_field(spec_apply_fields(o, s), x.0, x.1),
    decreases s.len(),
{
    assert(s.push(x)[0] == if s.len() == 0 {
        x
    } else {
        s[0]
    });
    if s.len() == 0 {
        assert(s.push(x).drop_first() =~= Seq::<(Seq<char>, Seq<char>)>::empty());
        assert(spec_apply_fields(o, s.push(x)) == spec_apply_fields(
            spec_apply_field(o, x.0, x.1),
            s.push(x).drop_first(),
        ));
        assert(spec_apply_fields(spec_apply_field(o, x.0, x.1), s.push(x).drop_first())
            == spec_apply_field(o, x.0, x.1));
        assert(spec_apply_fields(o, s) == o);
    } else {
        assert(s.push(x).drop_first() =~= s.drop_first().push(x));
        assert(spec_apply_fields(o, s.push(x)) == spec_apply_fields(
            spec_apply_field(o, s[0].0, s[0].1),
            s.drop_first().push(x),
        ));
        lemma_apply_fields_snoc(spec_apply_field(o, s[0].0, s[0].1), s.drop_first(), x);
        assert(spec_apply_fields(o, s) == spec_apply_fields(
            spec_apply_field(o, s[0].0, s[0].1),
            s.drop_first(),
        ));
    }
}

/// The character sequences a list of name/value fields holds.
pub open spec fn field_views(fields: Seq<(String, String)>) -> Seq<(Seq<char>, Seq<char>)> {
    fields.map_values(|p: (String, String)| (p.0@, p.1@))
}

/// Builds the options of a request from its raw form fields, applied in
/// order over the defaults. Never fails: every field value maps
/// to some option state.
pub fn parse_options(fields: &Vec<(String, String)>) -> (r: ConversionOptions)
    ensures
        r@ == spec_apply_fields(spec_default_options(), field_views(fields@)),
{
    let mut o = ConversionOptions::default();
    let mut i: usize = 0;
    while i < fields.len()
        invariant
            0 <= i <= fields@.len(),
            o@ == spec_apply_fields(spec_default_options(), field_views(fields@).take(i as int)),
        decreases fields@.len() - i,
    {
        let ghost pre = field_views(fields@).take(i as int);
        o.apply_field(fields[i].0.as_str(), fields[i].1.as_str());
        proof {
            assert(field_views(fields@).take(i + 1) =~= pre.push(field_views(fields@)[i as int]));
            lemma_apply_fields_snoc(spec_default_options(), pre, field_views(fields@)[i as int]);
        }
        i = i + 1;
    }
    proof {
        assert(field_views(fields@).take(fields@.len() as int) =~= field_views(fields@));
    }
    o
}

/// Effective frame rate: the raw value clamped into the supported range.
pub open spec fn spec_clamp_fps(n: nat) -> nat {
    if n < 3 {
        3
    } else if n > 10 {
        10
    } else {
        n
    }
}

/// Effective speed in tenths: the raw value clamped into the supported
/// range.
pub open spec fn spec_clamp_speed_tenths(t: nat) -> nat {
    if t < 5 {
        5
    } else if t > 50 {
        50
    } else {
        t
    }
}

impl ConversionOptions {
    /// Applies one raw form field, mirroring the lenient policy: defaults
    /// on unparseable numbers, the default member for unknown values, and
    /// no effect for unknown field names.
    pub fn apply_field(&mut self, name: &str, value: &str)
        ensures
            final(self)@ == spec_apply_field(old(self)@, name@, value@),
    {
        if str_eq(name, "resize") {
            self.resize = if str_eq(value, "100") {
                ResizeOption::_100
            } else if str_eq(value, "50") {
                ResizeOption::_50
            } else if str_eq(value, "25") {
                ResizeOption::_25
            } else {
                ResizeOption::_75
            };
        } else if str_eq(name, "speed") {
            self.speed_tenths = match parse_speed_tenths(value) {
                Some(t) => t,
                None => default_speed(),
            };
        } else if str_eq(name, "fps") {
            self.fps = match parse_u8(value) {
                Some(v) => v,
                None => default_fps(),
            };
        } else if str_eq(name, "quality") {
            self.quality = match parse_u8(value) {
                Some(v) => v,
                None => default_quality(),
            };
        } else if str_eq(name, "loop") {
            self.loop_opt = if str_eq(value, "forever") {
                LoopOption::Forever
            } else if str_eq(value, "bounce") {
                LoopOption::Bounce
            } else {
                match parse_i16(value) {
                    Some(n) => LoopOption::Count(n),
                    None => LoopOption::Forever,
                }
            };
        } else if str_eq(name, "start_time") {
            self.start_time = Some(String::from_str(value));
        } else if str_eq(name, "end_time") {
            self.end_time = Some(String::from_str(value));
        }
    }

    /// The clamped frame rate used by graph synthesis.
    pub fn effective_fps(&self) -> (r: u8)
        ensures
            r as nat == spec_clamp_fps(self@.fps),
            3 <= r <= 10,
    {
        if self.fps < 3 {
            3
        } else if self.fps > 10 {
            10
        } else {
            self.fps
        }
    }

    /// The clamped speed, in tenths, used by graph synthesis.
    pub fn effective_speed_tenths(&self) -> (r: u16)
        ensures
            r as nat == spec_clamp_speed_tenths(self@.speed_tenths),
            5 <= r <= 50,
    {
        if self.speed_tenths < 5 {
            5
        } else if self.speed_tenths > 50 {
            50
        } else {
            self.speed_tenths
        }
    }
}

} // verus!
