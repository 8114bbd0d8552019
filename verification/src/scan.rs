use vstd::prelude::*;

verus! {

/// Whether `needle` stands in `text` at index `at`.
pub open spec fn occurs_at(text: Seq<u8>, needle: Seq<u8>, at: int) -> bool {
    &&& 0 <= at
    &&& at + needle.len() <= text.len()
    &&& text.subrange(at, at + needle.len()) == needle
}

/// The first index at or after `from` at which `needle` stands in `text`, if there is one.
pub open spec fn first_occurrence(text: Seq<u8>, needle: Seq<u8>, from: int) -> Option<int>
    decreases text.len() + 1 - from,
{
    if from < 0 || from + needle.len() > text.len() {
        None
    } else if occurs_at(text, needle, from) {
        Some(from)
    } else {
        first_occurrence(text, needle, from + 1)
    }
}

/// The first index at or after `from` that holds `byte`, or the length of `text` if none does.
pub open spec fn first_index_of(text: Seq<u8>, byte: u8, from: int) -> int
    decreases text.len() - from,
{
    if from < 0 || from >= text.len() {
        text.len() as int
    } else if text[from] == byte {
        from
    } else {
        first_index_of(text, byte, from + 1)
    }
}

/// `first_occurrence` is the least index at or after `from` where the needle stands,
/// and is nothing exactly when the needle stands nowhere from there on.
pub proof fn first_occurrence_is_least(text: Seq<u8>, needle: Seq<u8>, from: int)
    requires
        0 <= from,
    ensures
        match first_occurrence(text, needle, from) {
            Some(at) => {
                &&& from <= at
                &&& occurs_at(text, needle, at)
                &&& forall|earlier: int| from <= earlier < at ==> !occurs_at(text, needle, earlier)
            },
            None => forall|at: int| from <= at ==> !occurs_at(text, needle, at),
        },
    decreases text.len() + 1 - from,
{
    if from + needle.len() <= text.len() && !occurs_at(text, needle, from) {
        first_occurrence_is_least(text, needle, from + 1);
    }
}

/// `first_index_of` is the least index at or after `from` that holds the byte,
/// and is the length of the text exactly when no index from there on holds it.
pub proof fn first_index_of_is_least(text: Seq<u8>, byte: u8, from: int)
    requires
        0 <= from <= text.len(),
    ensures
        from <= first_index_of(text, byte, from) <= text.len(),
        first_index_of(text, byte, from) < text.len() ==> text[first_index_of(text, byte, from)]
            == byte,
        forall|earlier: int|
            from <= earlier < first_index_of(text, byte, from) ==> text[earlier] != byte,
    decreases text.len() - from,
{
    if from < text.len() && text[from] != byte {
        first_index_of_is_least(text, byte, from + 1);
    }
}

/// An index is what `first_index_of` gives as soon as no index from `from` up to it holds the
/// byte, and it either holds the byte or is the end of the text.
pub proof fn first_index_of_is(text: Seq<u8>, byte: u8, from: int, at: int)
    requires
        0 <= from <= at <= text.len(),
        forall|earlier: int| from <= earlier < at ==> text[earlier] != byte,
        at < text.len() ==> text[at] == byte,
    ensures
        first_index_of(text, byte, from) == at,
    decreases at - from,
{
    if from < at {
        first_index_of_is(text, byte, from + 1, at);
    }
}

/// Tests whether `needle` stands in `text` at index `at`.
pub fn stands_at(text: &[u8], needle: &[u8], at: usize) -> (found: bool)
    ensures
        found == occurs_at(text@, needle@, at as int),
{
    if needle.len() > text.len() || at > text.len() - needle.len() {
        return false;
    }
    let mut matched: usize = 0;
    while matched < needle.len()
        invariant
            matched <= needle.len(),
            at + needle.len() <= text.len(),
            forall|k: int| 0 <= k < matched ==> text@[at + k] == needle@[k],
        decreases needle.len() - matched,
    {
        if text[at + matched] != needle[matched] {
            proof {
                let window = text@.subrange(at as int, at + needle.len());
                assert(window[matched as int] != needle@[matched as int]);
            }
            return false;
        }
        matched += 1;
    }
    assert(text@.subrange(at as int, at + needle.len()) =~= needle@);
    true
}

/// Finds the first place at or after `from` where `needle` stands in `text`.
pub fn find(text: &[u8], needle: &[u8], from: usize) -> (at: Option<usize>)
    ensures
        match at {
            Some(at) => first_occurrence(text@, needle@, from as int) == Some(at as int),
            None => first_occurrence(text@, needle@, from as int) is None,
        },
{
    if needle.len() > text.len() {
        return None;
    }
    let last: usize = text.len() - needle.len();
    let mut at: usize = from;
    while at <= last
        invariant
            from <= at,
            last + needle.len() == text.len(),
            first_occurrence(text@, needle@, from as int) == first_occurrence(
                text@,
                needle@,
                at as int,
            ),
        decreases last + 1 - at,
    {
        if stands_at(text, needle, at) {
            return Some(at);
        }
        if at == last {
            assert(first_occurrence(text@, needle@, at + 1) is None);
            return None;
        }
        at += 1;
    }
    None
}

/// Finds the first index at or after `from` that holds `byte`; the length of `text` if none does.
pub fn find_byte(text: &[u8], byte: u8, from: usize) -> (at: usize)
    ensures
        at == first_index_of(text@, byte, from as int),
{
    let mut at: usize = from;
    while at < text.len()
        invariant
            from <= at,
            first_index_of(text@, byte, from as int) == first_index_of(text@, byte, at as int),
        decreases text.len() - at,
    {
        if text[at] == byte {
            return at;
        }
        at += 1;
    }
    text.len()
}

} // verus!
