//! Development tools: which ones the development build turns on, the keys that drive them,
//! and the file name a screenshot is saved under.

use vstd::prelude::*;

verus! {

/// Development plugins and systems
#[derive(Default, Debug, Copy, Clone)]
pub struct DevPlugins;

/// One of the development tools.
#[derive(Debug, Clone, Copy, PartialEq, Eq, Structural, Hash)]
pub enum DevTool {
    /// Logs the game's state transitions.
    LogTransitions,
    /// Exits the game when its key is pressed.
    ExitOnEscape,
    /// Saves a screenshot when its key is pressed.
    Screenshot,
    /// Logs the loading progress.
    ProgressDebug,
    /// Measures frame times.
    FrameTimeDiagnostics,
    /// Shows the frame rate over the game.
    FpsOverlay,
    /// The world inspector, toggled by its key and hidden at first.
    WorldInspector,
}

/// A key that drives a development tool.
#[derive(Debug, Clone, Copy, PartialEq, Eq, Structural, Hash)]
pub enum DevKey {
    Escape,
    F11,
    F1,
}

/// Whether a tool toggled by its key starts active: the world inspector starts hidden; the
/// other tools are not toggled.
pub open spec fn spec_starts_active(tool: DevTool) -> Option<bool> {
    match tool {
        DevTool::WorldInspector => Some(false),
        _ => None,
    }
}

/// The tools of the development build, in the order they are added.
pub open spec fn spec_dev_tools() -> Seq<DevTool> {
    seq![
        DevTool::LogTransitions,
        DevTool::ExitOnEscape,
        DevTool::Screenshot,
        DevTool::ProgressDebug,
        DevTool::FrameTimeDiagnostics,
        DevTool::FpsOverlay,
        DevTool::WorldInspector,
    ]
}

impl DevPlugins {
    /// The tools the group adds: all of them, in order, in a development build, and none
    /// otherwise.
    pub fn tools(&self, dev_build: bool) -> (tools: Vec<DevTool>)
        ensures
            tools@ == (if dev_build { spec_dev_tools() } else { Seq::<DevTool>::empty() }),
    {
        let mut tools: Vec<DevTool> = Vec::new();
        if dev_build {
            tools.push(DevTool::LogTransitions);
            tools.push(DevTool::ExitOnEscape);
            tools.push(DevTool::Screenshot);
            tools.push(DevTool::ProgressDebug);
            tools.push(DevTool::FrameTimeDiagnostics);
            tools.push(DevTool::FpsOverlay);
            tools.push(DevTool::WorldInspector);
            assert(tools@ =~= spec_dev_tools());
        } else {
            assert(tools@ =~= Seq::<DevTool>::empty());
        }
        tools
    }
}

impl DevTool {
    /// For a tool its key toggles, whether it starts active (`None` for the other tools).
    pub fn starts_active(self) -> (active: Option<bool>)
        ensures
            active == spec_starts_active(self),
    {
        match self {
            DevTool::WorldInspector => Some(false),
            _ => None,
        }
    }

    /// The key that drives the tool: `Escape` exits, `F11` takes a screenshot and `F1`
    /// toggles the world inspector; the other tools have no key.
    pub fn key(self) -> (key: Option<DevKey>)
        ensures
            key == (match self {
                DevTool::ExitOnEscape => Some(DevKey::Escape),
                DevTool::Screenshot => Some(DevKey::F11),
                DevTool::WorldInspector => Some(DevKey::F1),
                _ => None::<DevKey>,
            }),
    {
        match self {
            DevTool::ExitOnEscape => Some(DevKey::Escape),
            DevTool::Screenshot => Some(DevKey::F11),
            DevTool::WorldInspector => Some(DevKey::F1),
            _ => None,
        }
    }
}

/// A character of a timestamp as it appears in a file name: `:`, `+`, space and `-` become
/// `_`, the rest stays.
pub open spec fn file_name_char(c: char) -> char {
    if c == ':' || c == '+' || c == ' ' || c == '-' {
        '_'
    } else {
        c
    }
}

/// The file name of a screenshot taken at `stamp`: `screenshot_{stamp}.png`, with the
/// stamp's `:`, `+`, space and `-` replaced by `_`.
pub open spec fn spec_screenshot_file_name(stamp: Seq<char>) -> Seq<char> {
    "screenshot_"@ + stamp.map_values(|c: char| file_name_char(c)) + ".png"@
}

/// A screenshot's name is `screenshot_`, then the stamp character by character (separators
/// `:`, `+`, space and `-` written as `_`, every other character kept), then `.png`. So two
/// stamps of one length that differ where neither has a separator (such as two times that
/// differ in a digit) give different names.
pub proof fn screenshot_name_spells_the_stamp(stamp: Seq<char>, other: Seq<char>, k: int)
    ensures
        spec_screenshot_file_name(stamp).len() == stamp.len() + 15,
        spec_screenshot_file_name(stamp).subrange(0, 11) == "screenshot_"@,
        spec_screenshot_file_name(stamp).subrange(stamp.len() as int + 11, stamp.len() as int + 15) == ".png"@,
        forall|i: int| 0 <= i < stamp.len() ==> {
            let c = #[trigger] stamp[i];
            let d = spec_screenshot_file_name(stamp)[11 + i];
            if c == ':' || c == '+' || c == ' ' || c == '-' { d == '_' } else { d == c }
        },
        other.len() == stamp.len() && 0 <= k < stamp.len() && stamp[k] != other[k]
            && file_name_char(stamp[k]) == stamp[k] && file_name_char(other[k]) == other[k]
            ==> spec_screenshot_file_name(stamp) != spec_screenshot_file_name(other),
{
    reveal_strlit("screenshot_");
    reveal_strlit(".png");
    let name = spec_screenshot_file_name(stamp);
    let mapped = stamp.map_values(|c: char| file_name_char(c));
    assert(name.subrange(0, 11) =~= "screenshot_"@);
    assert(name.subrange(stamp.len() as int + 11, stamp.len() as int + 15) =~= ".png"@);
    assert forall|i: int| 0 <= i < stamp.len() implies {
        let c = #[trigger] stamp[i];
        let d = spec_screenshot_file_name(stamp)[11 + i];
        if c == ':' || c == '+' || c == ' ' || c == '-' { d == '_' } else { d == c }
    } by {
        assert(name[11 + i] == mapped[i]);
    }
    if other.len() == stamp.len() && 0 <= k < stamp.len() && stamp[k] != other[k]
        && file_name_char(stamp[k]) == stamp[k] && file_name_char(other[k]) == other[k] {
        let other_name = spec_screenshot_file_name(other);
        assert(name[11 + k] == stamp[k]);
        assert(other_name[11 + k] == file_name_char(other[k]));
        assert(name[11 + k] != other_name[11 + k]);
    }
}

/// Calls `String::push`, which appends `c` to the end of `s`.
#[verifier::external_body]
fn push_char(s: &mut String, c: char)
    ensures
        final(s)@ == old(s)@.push(c),
{
    s.push(c);
}

/// The file name of a screenshot taken at the time written `stamp`.
pub fn screenshot_file_name_at(stamp: &str) -> (name: String)
    ensures
        name@ == spec_screenshot_file_name(stamp@),
{
    let mut name = String::from_str("screenshot_");
    let n: usize = stamp.unicode_len();
    let ghost start = name@;
    let mut i: usize = 0;
    while i < n
        invariant
            n == stamp@.len(),
            i <= n,
            start == "screenshot_"@,
            name@ == start + stamp@.take(i as int).map_values(|c: char| file_name_char(c)),
        decreases n - i,
    {
        let c = stamp.get_char(i);
        let d = if c == ':' || c == '+' || c == ' ' || c == '-' { '_' } else { c };
        push_char(&mut name, d);
        assert(stamp@.take(i + 1) =~= stamp@.take(i as int).push(c));
        assert(stamp@.take(i + 1).map_values(|c: char| file_name_char(c)) =~= stamp@.take(i as int).map_values(|c: char| file_name_char(c)).push(d));
        i += 1;
    }
    assert(stamp@.take(n as int) =~= stamp@);
    name.append(".png");
    name
}

/// Calls `time::OffsetDateTime::now_utc` and writes the current UTC time with the time
/// crate's `Display` format: the date and time, a space, then the offset (`+00:00:00` for
/// UTC). So the text is never empty and always holds a space. Which time comes back depends
/// on the clock, so nothing more is stated of it.
#[verifier::external_body]
fn utc_now_text() -> (text: String)
    ensures
        text@.len() > 0,
        text@.contains(' '),
{
    time::OffsetDateTime::now_utc().to_string()
}

/// The file name of a screenshot taken now.
pub fn screenshot_file_name() -> (name: String)
    ensures
        exists|stamp: Seq<char>| stamp.len() > 0 && stamp.contains(' ') && name@ == spec_screenshot_file_name(stamp),
{
    let stamp = utc_now_text();
    let name = screenshot_file_name_at(stamp.as_str());
    name
}

} // verus!
