//! The two messages of the greeting call and the text that relates them.

use vstd::prelude::*;

verus! {

/// The text that precedes the name in every greeting: `Hello` and one space.
pub open spec fn greeting_prefix() -> Seq<char> {
    seq!['H', 'e', 'l', 'l', 'o', ' ']
}

/// The text that follows the name in every greeting: one exclamation mark.
pub open spec fn greeting_suffix() -> Seq<char> {
    seq!['!']
}

/// The greeting for `name`: the prefix, the name as it came, the suffix.
pub open spec fn greeting(name: Seq<char>) -> Seq<char> {
    greeting_prefix() + name + greeting_suffix()
}

/// What a caller sends: the name to greet. Any text is a name, the empty one too.
#[derive(Debug, PartialEq, Eq)]
pub struct HelloRequest {
    pub name: String,
}

impl View for HelloRequest {
    type V = Seq<char>;

    /// A request is its name.
    open spec fn view(&self) -> Seq<char> {
        self.name@
    }
}

impl Default for HelloRequest {
    /// The request that names nobody: its name is the empty text.
    fn default() -> (request: Self)
        ensures
            request@ == Seq::<char>::empty(),
    {
        HelloRequest { name: String::new() }
    }
}

impl Clone for HelloRequest {
    /// A copy carries the same name.
    fn clone(&self) -> (copy: Self)
        ensures
            copy@ == self@,
    {
        HelloRequest { name: self.name.clone() }
    }
}

/// What a caller gets back: the greeting as text.
#[derive(Debug, PartialEq, Eq)]
pub struct HelloReply {
    pub message: String,
}

impl View for HelloReply {
    type V = Seq<char>;

    /// A reply is its message.
    open spec fn view(&self) -> Seq<char> {
        self.message@
    }
}

impl Default for HelloReply {
    /// The reply that says nothing: its message is the empty text. It is the
    /// greeting for no name at all, so the handler never gives it.
    fn default() -> (reply: Self)
        ensures
            reply@ == Seq::<char>::empty(),
    {
        HelloReply { message: String::new() }
    }
}

impl Clone for HelloReply {
    /// A copy carries the same message.
    fn clone(&self) -> (copy: Self)
        ensures
            copy@ == self@,
    {
        HelloReply { message: self.message.clone() }
    }
}

/// A greeting holds its name unchanged between the prefix and the suffix:
/// cutting both off gives the name back, whatever characters it is made of.
pub proof fn lemma_greeting_holds_name(name: Seq<char>)
    ensures
        greeting(name).len() == name.len() + 7,
        greeting(name).take(6) == greeting_prefix(),
        greeting(name).skip(6).drop_last() == name,
        greeting(name).last() == '!',
{
    let text = greeting(name);
    assert(text.take(6) =~= greeting_prefix());
    assert(text.skip(6).drop_last() =~= name);
}

/// Replies do not mix: two names have the same greeting only if they are the
/// same name. So of any two calls, made one after the other or at once, the
/// reply to one is never the reply owed to the other unless both asked the
/// same.
pub proof fn lemma_greeting_tells_names_apart(first: Seq<char>, second: Seq<char>)
    ensures
        greeting(first) == greeting(second) <==> first == second,
{
    if greeting(first) == greeting(second) {
        lemma_greeting_holds_name(first);
        lemma_greeting_holds_name(second);
    }
}

} // verus!
