//! The name of a timer: text that is borrowed or owned.

use vstd::prelude::*;
use std::borrow::Cow;

verus! {

/// `From<&str>` for `Cow<str>`: the slice is borrowed as it is, so the text
/// is the slice's.
pub assume_specification<'a>[ <Cow<'a, str> as From<&'a str>>::from ](s: &'a str) -> (r: Cow<
    'a,
    str,
>)
    ensures
        r@ == s@,
;

/// `From<String>` for `Cow<str>`: the string is taken over as it is, so the
/// text is the string's.
pub assume_specification<'a>[ <Cow<'a, str> as From<String>>::from ](s: String) -> (r: Cow<
    'a,
    str,
>)
    ensures
        r@ == s@,
;

/// `From<&String>` for `Cow<str>`: the string is borrowed as it is, so the
/// text is the string's.
pub assume_specification<'a>[ <Cow<'a, str> as From<&'a String>>::from ](s: &'a String) -> (r:
    Cow<'a, str>)
    ensures
        r@ == s@,
;

/// `From<T>` for `T`: the value comes back unchanged.
pub assume_specification<X>[ <X as From<X>>::from ](x: X) -> (r: X)
    ensures
        r == x,
;

/// The text that a `Cow<str>` holds, borrowed or owned.
pub(crate) fn text_of<'b, 'a>(text: &'b Cow<'a, str>) -> (r: &'b str)
    ensures
        r@ == text@,
{
    match text {
        Cow::Borrowed(slice) => slice,
        Cow::Owned(string) => string.as_str(),
    }
}

/// Whether `text` is what the conversion of `name` into a `Cow<str>` yields.
pub open spec fn names<'a, N: Into<Cow<'a, str>>>(name: N, text: Seq<char>) -> bool {
    exists|label: Cow<'a, str>| #[trigger]
        call_ensures(<N as Into<Cow<'a, str>>>::into, (name,), label) && label@ == text
}

/// Converts `name` into the text that a timer keeps.
pub fn label_of<'a, N: Into<Cow<'a, str>>>(name: N) -> (label: Cow<'a, str>)
    ensures
        names(name, label@),
{
    name.into()
}

/// The empty name.
pub fn no_label() -> (label: Cow<'static, str>)
    ensures
        label@ == Seq::<char>::empty(),
{
    proof {
        reveal_strlit("");
    }
    Cow::Borrowed("")
}

/// A string slice, a string and a `Cow<str>` each name their own text and
/// no other.
pub proof fn lemma_names_itself<'a>(
    slice: &'a str,
    string: String,
    label: Cow<'a, str>,
    text: Seq<char>,
)
    ensures
        names::<'a, &'a str>(slice, text) ==> text == slice@,
        names::<'a, String>(string, text) ==> text == string@,
        names::<'a, Cow<'a, str>>(label, text) ==> text == label@,
{
}

} // verus!
