use std::borrow::Cow;
use vstd::prelude::*;

verus! {

/// A value that can be turned into an owned string whose characters are known
/// beforehand.
///
/// The builder methods take their text arguments through this trait, so that
/// string slices, owned, boxed and borrowed-or-owned strings, and single
/// characters can be passed alike.
pub trait IntoText: Sized {
    /// The characters of the string that `into_text` returns.
    spec fn text(&self) -> Seq<char>;

    /// Turns the value into an owned string.
    fn into_text(self) -> (s: String)
        ensures
            s@ == self.text(),
    ;
}

impl IntoText for String {
    open spec fn text(&self) -> Seq<char> {
        self@
    }

    fn into_text(self) -> (s: String) {
        self
    }
}

impl<'a> IntoText for &'a str {
    open spec fn text(&self) -> Seq<char> {
        self@
    }

    fn into_text(self) -> (s: String) {
        self.to_owned()
    }
}

impl<'a> IntoText for &'a String {
    open spec fn text(&self) -> Seq<char> {
        self@
    }

    fn into_text(self) -> (s: String) {
        self.clone()
    }
}

impl<'a> IntoText for &'a mut str {
    open spec fn text(&self) -> Seq<char> {
        (**self)@
    }

    fn into_text(self) -> (s: String) {
        let slice: &str = &*self;
        slice.to_owned()
    }
}

impl IntoText for Box<str> {
    open spec fn text(&self) -> Seq<char> {
        self@
    }

    fn into_text(self) -> (s: String) {
        let slice: &str = &*self;
        slice.to_owned()
    }
}

impl<'a> IntoText for Cow<'a, str> {
    open spec fn text(&self) -> Seq<char> {
        self@
    }

    fn into_text(self) -> (s: String) {
        match self {
            Cow::Borrowed(slice) => slice.to_owned(),
            Cow::Owned(string) => string,
        }
    }
}

impl IntoText for char {
    open spec fn text(&self) -> Seq<char> {
        seq![*self]
    }

    fn into_text(self) -> (s: String) {
        char_string(self)
    }
}

/// Calls `String::from` of the standard library on a `char`, which allocates
/// a string from the single character: the result holds this character and
/// no other.
#[verifier::external_body]
fn char_string(c: char) -> (s: String)
    ensures
        s@ == seq![c],
{
    String::from(c)
}

/// The characters of each string of a sequence.
pub open spec fn texts(strings: Seq<String>) -> Seq<Seq<char>> {
    strings.map_values(|s: String| s@)
}

/// The characters that each value of a sequence turns into.
pub open spec fn texts_of<S: IntoText>(values: Seq<S>) -> Seq<Seq<char>> {
    values.map_values(|v: S| v.text())
}

/// Appends the strings that `values` turn into to `target`, in their order.
pub fn append_texts<S: IntoText>(target: &mut Vec<String>, values: Vec<S>)
    ensures
        texts(final(target)@) == texts(old(target)@) + texts_of(values@),
{
    let ghost before = target@;
    for value in it: values
        invariant
            it.seq() == values@,
            texts(target@) == texts(before) + texts_of(values@.take(it.index())),
    {
        let ghost had = target@;
        let ghost chars = value.text();
        target.push(value.into_text());
        proof {
            assert(values@.take(it.index() + 1) == values@.take(it.index()).push(value));
            assert(texts(target@) == texts(had).push(chars));
        }
    }
    proof {
        assert(values@.take(values@.len() as int) == values@);
    }
}

/// The characters of each string value of a mapping.
pub open spec fn text_values(m: Map<Seq<char>, String>) -> Map<Seq<char>, Seq<char>> {
    m.map_values(|s: String| s@)
}

/// The characters of each string of each list of a mapping.
pub open spec fn text_lists(m: Map<Seq<char>, Vec<String>>) -> Map<Seq<char>, Seq<Seq<char>>> {
    m.map_values(|list: Vec<String>| texts(list@))
}

} // verus!
