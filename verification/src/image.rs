//! The capability contract a container image profile exposes to the wait
//! engine.
//!
//! The engine never looks inside an image: it only asks for a name and tag
//! to launch, the environment to launch with, and the ordered readiness
//! conditions to drive the log scanner with. New image profiles implement
//! [`Image`]; the engine itself never changes for them.

use vstd::prelude::*;

verus! {

/// A declarative readiness check: the closed set of strategies the wait
/// engine knows how to drive. Waiting for a message in a log stream is one
/// of them, parameterized by the message and by which stream carries it.
pub enum WaitFor {
    /// Ready once a line on standard output contains the message.
    MessageOnStdout { message: String },
    /// Ready once a line on standard error contains the message.
    MessageOnStderr { message: String },
}

/// The mathematical image of a [`WaitFor`]: the same variants over character
/// sequences.
pub enum WaitForView {
    MessageOnStdout { message: Seq<char> },
    MessageOnStderr { message: Seq<char> },
}

impl View for WaitFor {
    type V = WaitForView;

    open spec fn view(&self) -> WaitForView {
        match self {
            WaitFor::MessageOnStdout { message } => (WaitForView::MessageOnStdout {
                message: message@,
            }),
            WaitFor::MessageOnStderr { message } => (WaitForView::MessageOnStderr {
                message: message@,
            }),
        }
    }
}

impl DeepView for WaitFor {
    type V = WaitForView;

    open spec fn deep_view(&self) -> WaitForView {
        self.view()
    }
}

impl WaitFor {
    /// The condition that some line on standard output contains `message`.
    pub fn message_on_stdout(message: &str) -> (c: WaitFor)
        ensures
            (c@ == WaitForView::MessageOnStdout { message: message@ }),
    {
        WaitFor::MessageOnStdout { message: String::from_str(message) }
    }

    /// The condition that some line on standard error contains `message`.
    pub fn message_on_stderr(message: &str) -> (c: WaitFor)
        ensures
            (c@ == WaitForView::MessageOnStderr { message: message@ }),
    {
        WaitFor::MessageOnStderr { message: String::from_str(message) }
    }
}

/// Environment keys are unique: no key appears under two indices.
pub open spec fn env_keys_unique(env: Seq<(Seq<char>, Seq<char>)>) -> bool {
    forall|i: int, j: int| 0 <= i < j < env.len() ==> (#[trigger] env[i]).0 != (#[trigger] env[j]).0
}

/// What the wait engine needs from a container image profile: a registry
/// name and tag, the declared environment (keys unique), and the readiness
/// conditions, in the order they must pass.
pub trait Image {
    /// The image name, as the registry knows it.
    spec fn spec_name(&self) -> Seq<char>;

    /// The image tag.
    spec fn spec_tag(&self) -> Seq<char>;

    /// The declared environment, as ordered (key, value) pairs.
    spec fn spec_env_vars(&self) -> Seq<(Seq<char>, Seq<char>)>;

    /// The argument sequence used to launch the process whose output the
    /// engine scans.
    spec fn spec_args(&self) -> Seq<Seq<char>>;

    /// The readiness conditions, in the order they must pass.
    spec fn spec_ready_conditions(&self) -> Seq<WaitForView>;

    fn name(&self) -> (r: String)
        ensures
            r@ == self.spec_name(),
    ;

    fn tag(&self) -> (r: String)
        ensures
            r@ == self.spec_tag(),
    ;

    fn env_vars<'a>(&'a self) -> (r: &'a Vec<(String, String)>)
        ensures
            r.deep_view() == self.spec_env_vars(),
            env_keys_unique(self.spec_env_vars()),
    ;

    fn args(&self) -> (r: Vec<String>)
        ensures
            r.deep_view() == self.spec_args(),
    ;

    fn ready_conditions(&self) -> (r: Vec<WaitFor>)
        ensures
            r.deep_view() == self.spec_ready_conditions(),
    ;
}

} // verus!
