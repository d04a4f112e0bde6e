//! The identifiers that parameterise a run.

use vstd::prelude::*;

verus! {

/// The externally fixed identifiers of the project being bootstrapped.
///
/// A context is supplied when a plan is built and is read-only afterwards.
/// Paths in a plan are relative to the working directory, which the driver
/// holds.
#[derive(Debug)]
pub struct ProjectContext {
    /// The application's product and display name.
    pub name: String,
    /// The reverse-domain application identifier.
    pub identifier: String,
    /// The signing team of the target developer.
    pub team: String,
    /// The URL of the development server.
    pub dev_url: String,
}

/// The characters of a [`ProjectContext`].
pub struct ContextView {
    pub name: Seq<char>,
    pub identifier: Seq<char>,
    pub team: Seq<char>,
    pub dev_url: Seq<char>,
}

impl View for ProjectContext {
    type V = ContextView;

    open spec fn view(&self) -> ContextView {
        ContextView {
            name: self.name@,
            identifier: self.identifier@,
            team: self.team@,
            dev_url: self.dev_url@,
        }
    }
}

/// Whether a character can stand between the quotes of a JSON string as it
/// is: it is no quote, no backslash and no control character.
pub open spec fn plain_char(c: char) -> bool {
    c != '"' && c != '\\' && c as u32 >= 0x20
}

/// Whether every character of a text can stand in a JSON string as it is.
pub open spec fn plain(text: Seq<char>) -> bool {
    forall|i: int| 0 <= i < text.len() ==> plain_char(#[trigger] text[i])
}

impl ContextView {
    /// Whether every value of the context is [`plain`]. The artifacts take
    /// the values as they are, so the native configuration is meant for a
    /// plain context.
    pub open spec fn is_plain(self) -> bool {
        plain(self.name) && plain(self.identifier) && plain(self.team) && plain(self.dev_url)
    }
}

/// Tells whether `text` is [`plain`].
pub fn is_plain(text: &str) -> (yes: bool)
    ensures
        yes == plain(text@),
{
    let length = text.unicode_len();
    let mut i: usize = 0;
    while i < length
        invariant
            i <= length,
            length == text@.len(),
            forall|k: int| 0 <= k < i ==> plain_char(#[trigger] text@[k]),
        decreases length - i,
    {
        let c = text.get_char(i);
        if c == '"' || c == '\\' || (c as u32) < 0x20 {
            return false;
        }
        i += 1;
    }
    true
}

/// The development server that a context gets when none is named.
pub const DEFAULT_DEV_URL: &'static str = "http://localhost:3000";

impl ProjectContext {
    /// A context with the given identifiers and the default development
    /// server.
    pub fn new(name: &str, identifier: &str, team: &str) -> (ctx: ProjectContext)
        ensures
            ctx@ == (ContextView {
                name: name@,
                identifier: identifier@,
                team: team@,
                dev_url: DEFAULT_DEV_URL@,
            }),
    {
        ProjectContext {
            name: String::from_str(name),
            identifier: String::from_str(identifier),
            team: String::from_str(team),
            dev_url: String::from_str(DEFAULT_DEV_URL),
        }
    }

    /// The same context with another development server.
    pub fn with_dev_url(self, dev_url: &str) -> (ctx: ProjectContext)
        ensures
            ctx@ == (ContextView { dev_url: dev_url@, ..self@ }),
    {
        ProjectContext {
            name: self.name,
            identifier: self.identifier,
            team: self.team,
            dev_url: String::from_str(dev_url),
        }
    }

    /// Tells whether every value of the context is [`plain`], as the native
    /// configuration wants it.
    pub fn is_plain(&self) -> (yes: bool)
        ensures
            yes == self@.is_plain(),
    {
        is_plain(self.name.as_str()) && is_plain(self.identifier.as_str()) && is_plain(
            self.team.as_str(),
        ) && is_plain(self.dev_url.as_str())
    }

    /// The context of the `shipnext` application itself.
    pub fn shipnext() -> (ctx: ProjectContext)
        ensures
            ctx@ == (ContextView {
                name: "shipnext"@,
                identifier: "com.shipnext.dev"@,
                team: "NXR8WH6TN8"@,
                dev_url: DEFAULT_DEV_URL@,
            }),
    {
        ProjectContext::new("shipnext", "com.shipnext.dev", "NXR8WH6TN8")
    }
}

} // verus!
