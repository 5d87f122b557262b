use vstd::prelude::*;
use vstd::string::StringExecFns;

verus! {

/// The characters of the greeting for a given name: `"Hello, "`,
/// then the name, then `"!"`.
pub open spec fn greeting_of(name: Seq<char>) -> Seq<char> {
    "Hello, "@ + name + "!"@
}

/// Returns the fixed greeting text `"Hello from Rust"`.
pub fn simple_function() -> (r: String)
    ensures
        r@ == "Hello from Rust"@,
{
    String::from_str("Hello from Rust")
}

/// A record holding a person's display name.
pub struct User {
    name: String,
}

impl View for User {
    type V = Seq<char>;

    closed spec fn view(&self) -> Seq<char> {
        self.name@
    }
}

impl User {
    /// Creates a record holding `name` verbatim.
    pub fn new(name: String) -> (r: Self)
        ensures
            r@ == name@,
    {
        User { name }
    }

    /// Renders the greeting for this record's name: `"Hello, <name>!"`.
    pub fn greet(&self) -> (r: String)
        ensures
            r@ == greeting_of(self@),
    {
        let mut s = String::from_str("Hello, ");
        s.append(self.name.as_str());
        s.append("!");
        s
    }
}

/// Constructing a record from a name `s` and rendering it yields exactly
/// `"Hello, "` concatenated with `s` concatenated with `"!"`.
pub proof fn lemma_construct_then_render(s: Seq<char>, rendered: Seq<char>)
    requires
        rendered == greeting_of(s),
    ensures
        rendered == "Hello, "@ + s + "!"@,
{
}

/// Rendering is deterministic: two renders of the same record yield
/// identical output.
pub proof fn lemma_render_deterministic(u: User, r1: Seq<char>, r2: Seq<char>)
    requires
        r1 == greeting_of(u@),
        r2 == greeting_of(u@),
    ensures
        r1 == r2,
{
}

} // verus!
