//! Argument compilation for the dsda-doom engine.
//!
//! A [`DsdaArgs`] value describes how the engine should be started; the
//! compiler [`DsdaArgs::generate_arguments`] maps it to the ordered token
//! sequence the executable expects on its command line. The mapping is
//! specified by [`compiled_tokens`], a pure function over the configuration's
//! mathematical view.

use vstd::prelude::*;
use vstd::string::StringExecFns;

verus! {

/// The decimal digit character for `d`, which must lie in 0 through 9.
pub open spec fn spec_digit_char(d: int) -> char {
    if d == 0 {
        '0'
    } else if d == 1 {
        '1'
    } else if d == 2 {
        '2'
    } else if d == 3 {
        '3'
    } else if d == 4 {
        '4'
    } else if d == 5 {
        '5'
    } else if d == 6 {
        '6'
    } else if d == 7 {
        '7'
    } else if d == 8 {
        '8'
    } else {
        '9'
    }
}

/// The base-10 rendering of `n` with no leading zero, for `n` up to 999.
pub open spec fn spec_decimal(n: int) -> Seq<char> {
    if n < 10 {
        seq![spec_digit_char(n)]
    } else if n < 100 {
        seq![spec_digit_char(n / 10), spec_digit_char(n % 10)]
    } else {
        seq![spec_digit_char(n / 100), spec_digit_char((n / 10) % 10), spec_digit_char(n % 10)]
    }
}

/// The string form of one decimal digit.
fn digit_str(d: u8) -> (s: &'static str)
    requires
        d < 10,
    ensures
        s@ =~= seq![spec_digit_char(d as int)],
{
    proof {
        reveal_strlit("0");
        reveal_strlit("1");
        reveal_strlit("2");
        reveal_strlit("3");
        reveal_strlit("4");
        reveal_strlit("5");
        reveal_strlit("6");
        reveal_strlit("7");
        reveal_strlit("8");
        reveal_strlit("9");
    }
    match d {
        0 => "0",
        1 => "1",
        2 => "2",
        3 => "3",
        4 => "4",
        5 => "5",
        6 => "6",
        7 => "7",
        8 => "8",
        _ => "9",
    }
}

/// Render a start level as a base-10 token with no leading zero.
pub fn level_token(n: u8) -> (s: String)
    ensures
        s@ == spec_decimal(n as int),
{
    if n < 10 {
        digit_str(n).to_owned()
    } else if n < 100 {
        let mut s = digit_str(n / 10).to_owned();
        s.append(digit_str(n % 10));
        proof {
            assert(s@ =~= spec_decimal(n as int));
        }
        s
    } else {
        let mut s = digit_str(n / 100).to_owned();
        s.append(digit_str((n / 10) % 10));
        s.append(digit_str(n % 10));
        proof {
            assert(s@ =~= spec_decimal(n as int));
        }
        s
    }
}

/// Graphics renderer selection.
#[derive(Debug, Clone, Copy)]
pub enum Renderer {
    Software,
    OpenGL,
}

/// Difficulty selection.
#[derive(Debug, Clone, Copy)]
pub enum Skill {
    Baby,
    Easy,
    Medium,
    Hard,
    Nightmare,
}

/// Demo-compatibility level selection.
#[derive(Debug, Clone, Copy)]
pub enum Complevel {
    Doom19,
    UDoom,
    FinalDoom,
    Boom,
    Mbf,
    Mbf21,
}

impl Renderer {
    /// The engine token that selects this renderer.
    pub open spec fn spec_token(self) -> Seq<char> {
        match self {
            Renderer::Software => "sw"@,
            Renderer::OpenGL => "gl"@,
        }
    }

    /// Encode the renderer as its engine token.
    pub fn token(self) -> (s: String)
        ensures
            s@ == self.spec_token(),
    {
        match self {
            Renderer::Software => "sw".to_owned(),
            Renderer::OpenGL => "gl".to_owned(),
        }
    }
}

impl Skill {
    /// The engine token that selects this skill level.
    pub open spec fn spec_token(self) -> Seq<char> {
        match self {
            Skill::Baby => "1"@,
            Skill::Easy => "2"@,
            Skill::Medium => "3"@,
            Skill::Hard => "4"@,
            Skill::Nightmare => "5"@,
        }
    }

    /// Encode the skill level as its engine token.
    pub fn token(self) -> (s: String)
        ensures
            s@ == self.spec_token(),
    {
        match self {
            Skill::Baby => "1".to_owned(),
            Skill::Easy => "2".to_owned(),
            Skill::Medium => "3".to_owned(),
            Skill::Hard => "4".to_owned(),
            Skill::Nightmare => "5".to_owned(),
        }
    }
}

impl Complevel {
    /// The engine token that selects this compatibility level.
    pub open spec fn spec_token(self) -> Seq<char> {
        match self {
            Complevel::Doom19 => "2"@,
            Complevel::UDoom => "3"@,
            Complevel::FinalDoom => "4"@,
            Complevel::Boom => "9"@,
            Complevel::Mbf => "11"@,
            Complevel::Mbf21 => "21"@,
        }
    }

    /// Encode the compatibility level as its engine token.
    pub fn token(self) -> (s: String)
        ensures
            s@ == self.spec_token(),
    {
        match self {
            Complevel::Doom19 => "2".to_owned(),
            Complevel::UDoom => "3".to_owned(),
            Complevel::FinalDoom => "4".to_owned(),
            Complevel::Boom => "9".to_owned(),
            Complevel::Mbf => "11".to_owned(),
            Complevel::Mbf21 => "21".to_owned(),
        }
    }
}

/// A launch configuration for the engine, fully typed and immutable.
///
/// Optional fields that are absent contribute no tokens; the engine then
/// uses its own default.
pub struct DsdaArgs {
    /// Path of the main game-data archive. Always emitted.
    pub iwad: String,
    /// Level to warp to at start, 1 through 255; absent for the engine default.
    pub warp: Option<u8>,
    /// Graphics renderer; absent for the engine default.
    pub renderer: Option<Renderer>,
    /// Difficulty; absent for the engine default.
    pub skill: Option<Skill>,
    /// Demo-compatibility level; absent for the engine default.
    pub complevel: Option<Complevel>,
    /// Restart each level with the starting loadout.
    pub pistolstart: bool,
    /// Supplemental game-data archives, in engine load order.
    pub files: Vec<String>,
    /// Opaque tokens forwarded verbatim, always last.
    pub extra: Vec<String>,
}

/// The mathematical view of a [`DsdaArgs`] value: every path and token as a
/// sequence of characters.
pub struct ArgsModel {
    pub iwad: Seq<char>,
    pub warp: Option<u8>,
    pub renderer: Option<Renderer>,
    pub skill: Option<Skill>,
    pub complevel: Option<Complevel>,
    pub pistolstart: bool,
    pub files: Seq<Seq<char>>,
    pub extra: Seq<Seq<char>>,
}

impl View for DsdaArgs {
    type V = ArgsModel;

    open spec fn view(&self) -> ArgsModel {
        ArgsModel {
            iwad: self.iwad@,
            warp: self.warp,
            renderer: self.renderer,
            skill: self.skill,
            complevel: self.complevel,
            pistolstart: self.pistolstart,
            files: self.files.deep_view(),
            extra: self.extra.deep_view(),
        }
    }
}

/// Tokens of the main-asset segment: always `-iwad` and the path as given.
pub open spec fn iwad_tokens(c: ArgsModel) -> Seq<Seq<char>> {
    seq!["-iwad"@, c.iwad]
}

/// Tokens of the start-level segment: `-warp` and the level in base 10,
/// or nothing when the level is absent.
pub open spec fn warp_tokens(c: ArgsModel) -> Seq<Seq<char>> {
    match c.warp {
        Option::None => seq![],
        Option::Some(level) => seq!["-warp"@, spec_decimal(level as int)],
    }
}

/// Tokens of the renderer segment: `-vidmode` and the renderer's token,
/// or nothing when the renderer is absent.
pub open spec fn renderer_tokens(c: ArgsModel) -> Seq<Seq<char>> {
    match c.renderer {
        Option::None => seq![],
        Option::Some(r) => seq!["-vidmode"@, r.spec_token()],
    }
}

/// Tokens of the skill segment: `-skill` and the skill's token, or nothing
/// when the skill is absent.
pub open spec fn skill_tokens(c: ArgsModel) -> Seq<Seq<char>> {
    match c.skill {
        Option::None => seq![],
        Option::Some(s) => seq!["-skill"@, s.spec_token()],
    }
}

/// Tokens of the compatibility segment: `-complevel` and the level's token,
/// or nothing when the level is absent.
pub open spec fn complevel_tokens(c: ArgsModel) -> Seq<Seq<char>> {
    match c.complevel {
        Option::None => seq![],
        Option::Some(l) => seq!["-complevel"@, l.spec_token()],
    }
}

/// Tokens of the pistol-start segment: the single flag, or nothing.
pub open spec fn pistolstart_tokens(c: ArgsModel) -> Seq<Seq<char>> {
    if c.pistolstart {
        seq!["-pistolstart"@]
    } else {
        seq![]
    }
}

/// Tokens of the supplemental-assets segment: `-file` followed by each path
/// in the given order, or nothing when the sequence is empty. The marker is
/// never emitted alone.
pub open spec fn files_tokens(c: ArgsModel) -> Seq<Seq<char>> {
    if c.files.len() == 0 {
        seq![]
    } else {
        seq!["-file"@] + c.files
    }
}

/// The full compiled token sequence: the eight segments concatenated in the
/// fixed order main asset, start level, renderer, skill, compatibility,
/// pistol start, supplemental assets, passthrough. The passthrough tokens
/// are appended verbatim and always come last.
pub open spec fn compiled_tokens(c: ArgsModel) -> Seq<Seq<char>> {
    iwad_tokens(c) + warp_tokens(c) + renderer_tokens(c) + skill_tokens(c) + complevel_tokens(c)
        + pistolstart_tokens(c) + files_tokens(c) + c.extra
}

/// Number of tokens the first six segments contribute, which is where the
/// supplemental-assets segment starts.
pub open spec fn files_offset(c: ArgsModel) -> int {
    iwad_tokens(c).len() + warp_tokens(c).len() + renderer_tokens(c).len() + skill_tokens(c).len()
        + complevel_tokens(c).len() + pistolstart_tokens(c).len() as int
}

/// Law: segment order is fixed. For every configuration, whatever optional
/// fields are set, the compiled sequence is the eight segments concatenated
/// in the order main asset, start level, renderer, skill, compatibility,
/// pistol start, supplemental assets, passthrough; it always begins with the
/// main-asset segment and always ends with the passthrough tokens.
pub proof fn lemma_segment_order(c: ArgsModel)
    ensures
        compiled_tokens(c) == iwad_tokens(c) + warp_tokens(c) + renderer_tokens(c) + skill_tokens(
            c,
        ) + complevel_tokens(c) + pistolstart_tokens(c) + files_tokens(c) + c.extra,
        compiled_tokens(c)[0] == "-iwad"@,
        compiled_tokens(c)[1] == c.iwad,
        compiled_tokens(c).subrange(
            compiled_tokens(c).len() - c.extra.len(),
            compiled_tokens(c).len() as int,
        ) == c.extra,
{
    assert(compiled_tokens(c).subrange(
        compiled_tokens(c).len() - c.extra.len(),
        compiled_tokens(c).len() as int,
    ) =~= c.extra);
}

/// Law: a configuration with every optional field absent, the pistol-start
/// flag off and both sequences empty compiles to exactly the main-asset
/// segment: the marker token and the main asset path.
pub proof fn lemma_minimal_config(c: ArgsModel)
    requires
        c.warp is None,
        c.renderer is None,
        c.skill is None,
        c.complevel is None,
        !c.pistolstart,
        c.files.len() == 0,
        c.extra.len() == 0,
    ensures
        compiled_tokens(c) == seq!["-iwad"@, c.iwad],
{
    assert(compiled_tokens(c) =~= seq!["-iwad"@, c.iwad]);
}

/// Law: compilation is a pure function of the configuration — equal
/// configurations compile to equal, order-equal token sequences.
pub proof fn lemma_compile_pure(c1: ArgsModel, c2: ArgsModel)
    requires
        c1 == c2,
    ensures
        compiled_tokens(c1) == compiled_tokens(c2),
{
}

/// Law: adding a passthrough token only appends to the end of the output; it
/// never reorders or removes the tokens of any prior segment.
pub proof fn lemma_passthrough_appends(c1: ArgsModel, c2: ArgsModel, t: Seq<char>)
    requires
        c2.iwad == c1.iwad,
        c2.warp == c1.warp,
        c2.renderer == c1.renderer,
        c2.skill == c1.skill,
        c2.complevel == c1.complevel,
        c2.pistolstart == c1.pistolstart,
        c2.files == c1.files,
        c2.extra == c1.extra.push(t),
    ensures
        compiled_tokens(c2) == compiled_tokens(c1).push(t),
{
    assert(compiled_tokens(c2) =~= compiled_tokens(c1).push(t));
}

/// Law: supplemental-asset order is preserved exactly. When any supplemental
/// assets are present, the marker token stands right after the first six
/// segments and each asset path follows at its own offset, in the given
/// order, with no sorting or deduplication.
pub proof fn lemma_files_order(c: ArgsModel)
    requires
        c.files.len() > 0,
    ensures
        compiled_tokens(c)[files_offset(c)] == "-file"@,
        forall|i: int|
            0 <= i < c.files.len() ==> compiled_tokens(c)[files_offset(c) + 1 + i] == c.files[i],
{
    assert forall|i: int| 0 <= i < c.files.len() implies compiled_tokens(c)[files_offset(c) + 1
        + i] == c.files[i] by {
        assert(files_tokens(c)[1 + i] == c.files[i]);
    }
}

/// Append every element of `items`, in order, to `out`.
fn push_all(out: &mut Vec<String>, items: Vec<String>)
    ensures
        final(out).deep_view() == old(out).deep_view() + items.deep_view(),
{
    let ghost pre = out.deep_view();
    let mut i: usize = 0;
    while i < items.len()
        invariant
            i <= items.len(),
            out.deep_view() =~= pre + items.deep_view().subrange(0, i as int),
        decreases items.len() - i,
    {
        let ghost prev = out.deep_view();
        out.push(items[i].clone());
        proof {
            assert(out.deep_view() =~= prev.push(items.deep_view()[i as int]));
            assert(items.deep_view().subrange(0, i + 1 as int) =~= items.deep_view().subrange(
                0,
                i as int,
            ).push(items.deep_view()[i as int]));
            assert(out.deep_view() =~= pre + items.deep_view().subrange(0, i + 1 as int));
        }
        i += 1;
    }
    proof {
        assert(out.deep_view() =~= pre + items.deep_view());
    }
}

impl DsdaArgs {
    /// A launch configuration is well formed when the start level, if set,
    /// is positive.
    pub open spec fn wf(self) -> bool {
        match self.warp {
            Option::None => true,
            Option::Some(level) => 1 <= level,
        }
    }

    /// Compile the configuration into the ordered token sequence the engine
    /// executable expects on its command line, exactly [`compiled_tokens`]
    /// of the configuration's view.
    #[verifier::rlimit(50)]
    pub fn generate_arguments(self) -> (out: Vec<String>)
        requires
            self.wf(),
        ensures
            out.deep_view() == compiled_tokens(self@),
    {
        let ghost c = self@;
        let DsdaArgs { iwad, warp, renderer, skill, complevel, pistolstart, files, extra } = self;

        let mut out: Vec<String> = Vec::new();
        out.push("-iwad".to_owned());
        out.push(iwad);
        proof {
            assert(out.deep_view() =~= iwad_tokens(c));
        }

        if let Option::Some(level) = warp {
            out.push("-warp".to_owned());
            out.push(level_token(level));
        }
        proof {
            assert(out.deep_view() =~= iwad_tokens(c) + warp_tokens(c));
        }

        if let Option::Some(r) = renderer {
            out.push("-vidmode".to_owned());
            out.push(r.token());
        }
        proof {
            assert(out.deep_view() =~= iwad_tokens(c) + warp_tokens(c) + renderer_tokens(c));
        }

        if let Option::Some(s) = skill {
            out.push("-skill".to_owned());
            out.push(s.token());
        }
        proof {
            assert(out.deep_view() =~= iwad_tokens(c) + warp_tokens(c) + renderer_tokens(c)
                + skill_tokens(c));
        }

        if let Option::Some(l) = complevel {
            out.push("-complevel".to_owned());
            out.push(l.token());
        }
        proof {
            assert(out.deep_view() =~= iwad_tokens(c) + warp_tokens(c) + renderer_tokens(c)
                + skill_tokens(c) + complevel_tokens(c));
        }

        if pistolstart {
            out.push("-pistolstart".to_owned());
        }
        let ghost before_files = out.deep_view();
        proof {
            assert(before_files =~= iwad_tokens(c) + warp_tokens(c) + renderer_tokens(c)
                + skill_tokens(c) + complevel_tokens(c) + pistolstart_tokens(c));
        }

        if files.len() > 0 {
            out.push("-file".to_owned());
            push_all(&mut out, files);
        }
        proof {
            assert(out.deep_view() =~= before_files + files_tokens(c));
        }

        push_all(&mut out, extra);
        proof {
            assert(out.deep_view() =~= compiled_tokens(c));
        }
        out
    }
}

} // verus!
