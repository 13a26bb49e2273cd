use vstd::prelude::*;
use crate::de::DecodeError;
use crate::json::Json;
use crate::text::str_eq;

verus! {

/// The variant that a spelling table lists for `name`: that of the first
/// entry spelled exactly so, letter for letter.
pub open spec fn resolve<T>(table: Seq<(&'static str, T)>, name: Seq<char>) -> Option<T>
    decreases table.len(),
{
    if table.len() == 0 {
        None
    } else if table[0].0@ == name {
        Some(table[0].1)
    } else {
        resolve(table.drop_first(), name)
    }
}

/// Looks `name` up in a spelling table.
pub fn lookup<T: Copy>(table: &[(&'static str, T)], name: &str) -> (r: Option<T>)
    ensures
        r == resolve(table@, name@),
{
    let mut i: usize = 0;
    assert(table@.skip(0) =~= table@);
    while i < table.len()
        invariant
            i <= table.len(),
            resolve(table@, name@) == resolve(table@.skip(i as int), name@),
        decreases table.len() - i,
    {
        if str_eq(table[i].0, name) {
            assert(table@.skip(i as int)[0] == table@[i as int]);
            return Some(table[i].1);
        }
        assert(table@.skip(i as int).drop_first() =~= table@.skip(i + 1));
        i += 1;
    }
    None
}

/// Whether `a` stands before `b` in alphabetical order, going by the
/// characters from index `k` on: at the first index where they differ `a` has
/// the lower character, or `a` ends there and `b` goes on.
pub open spec fn precedes(a: Seq<char>, b: Seq<char>, k: int) -> bool
    decreases a.len() - k,
{
    if k < 0 || k >= b.len() {
        false
    } else if k >= a.len() {
        true
    } else if a[k] != b[k] {
        (a[k] as u32) < (b[k] as u32)
    } else {
        precedes(a, b, k + 1)
    }
}

/// Whether the spellings of `table` from index `from` on stand in
/// alphabetical order, each before the next.
pub open spec fn ascending_from<T>(table: Seq<(&'static str, T)>, from: int) -> bool
    decreases table.len() - from,
{
    from < 0 || from + 1 >= table.len() || (precedes(table[from].0@, table[from + 1].0@, 0)
        && ascending_from(table, from + 1))
}

/// Nothing stands before itself.
pub proof fn lemma_precedes_differs(a: Seq<char>, k: int)
    ensures
        !precedes(a, a, k),
    decreases a.len() - k,
{
    if 0 <= k < a.len() {
        lemma_precedes_differs(a, k + 1);
    }
}

/// What stands before a string stands before everything behind that string.
pub proof fn lemma_precedes_transitive(a: Seq<char>, b: Seq<char>, c: Seq<char>, k: int)
    requires
        precedes(a, b, k),
        precedes(b, c, k),
    ensures
        precedes(a, c, k),
    decreases a.len() - k,
{
    if k < a.len() && a[k] == b[k] && b[k] == c[k] {
        lemma_precedes_transitive(a, b, c, k + 1);
    }
}

proof fn lemma_ascending<T>(table: Seq<(&'static str, T)>, from: int, i: int, j: int)
    requires
        ascending_from(table, from),
        0 <= from <= i < j < table.len(),
    ensures
        precedes(table[i].0@, table[j].0@, 0),
    decreases j - from,
{
    if from < i {
        lemma_ascending(table, from + 1, i, j);
    } else if i + 1 < j {
        lemma_ascending(table, from + 1, i + 1, j);
        lemma_precedes_transitive(table[i].0@, table[i + 1].0@, table[j].0@, 0);
    }
}

proof fn lemma_distinct<T>(table: Seq<(&'static str, T)>, i: int, j: int)
    requires
        ascending_from(table, 0),
        0 <= i < j < table.len(),
    ensures
        table[i].0@ != table[j].0@,
{
    lemma_ascending(table, 0, i, j);
    lemma_precedes_differs(table[i].0@, 0);
}

proof fn lemma_resolve_first<T>(table: Seq<(&'static str, T)>, i: int)
    requires
        0 <= i < table.len(),
        forall|j: int| 0 <= j < i ==> (#[trigger] table[j]).0@ != table[i].0@,
    ensures
        resolve(table, table[i].0@) == Some(table[i].1),
    decreases i,
{
    if i > 0 {
        let rest = table.drop_first();
        assert(rest[i - 1] == table[i]);
        assert forall|j: int| 0 <= j < i - 1 implies (#[trigger] rest[j]).0@ != rest[i - 1].0@ by {
            assert(rest[j] == table[j + 1]);
        }
        lemma_resolve_first(rest, i - 1);
    }
}

/// What `resolve` finds stands in the table: some entry is spelled `name`
/// and lists the variant found. Where it finds nothing, no entry is spelled so.
pub proof fn lemma_resolve_sound<T>(table: Seq<(&'static str, T)>, name: Seq<char>)
    ensures
        match resolve(table, name) {
            Some(v) => exists|i: int|
                0 <= i < table.len() && (#[trigger] table[i]).0@ == name && table[i].1 == v,
            None => forall|i: int| 0 <= i < table.len() ==> (#[trigger] table[i]).0@ != name,
        },
    decreases table.len(),
{
    if table.len() == 0 {
    } else if table[0].0@ == name {
        assert(table[0].0@ == name && table[0].1 == resolve(table, name)->Some_0);
    } else {
        let rest = table.drop_first();
        lemma_resolve_sound(rest, name);
        match resolve(rest, name) {
            Some(v) => {
                let i = choose|i: int|
                    0 <= i < rest.len() && (#[trigger] rest[i]).0@ == name && rest[i].1 == v;
                assert(table[i + 1] == rest[i]);
            },
            None => {
                assert forall|i: int| 0 <= i < table.len() implies (#[trigger] table[i]).0@
                    != name by {
                    if i > 0 {
                        assert(table[i] == rest[i - 1]);
                    }
                }
            },
        }
    }
}

/// A closed enumeration that is written as text: a table lists every
/// spelling that has ever stood for one of its variants, the canonical name
/// and the aliases alike. The table is kept in alphabetical order, which
/// makes sure that no spelling stands in it twice.
pub trait Enumeration: Copy + 'static {
    /// The spelling table.
    spec fn table() -> Seq<(&'static str, Self)>;

    /// The spelling table, as data.
    fn spellings() -> (r: &'static [(&'static str, Self)])
        ensures
            r@ == Self::table(),
    ;

    /// The table is in alphabetical order.
    proof fn spellings_ascend()
        ensures
            ascending_from(Self::table(), 0),
    ;
}

/// The variant of `T` that `name` spells, if any.
pub open spec fn spelled<T: Enumeration>(name: Seq<char>) -> Option<T> {
    resolve(T::table(), name)
}

/// Finds the variant that `name` spells.
pub fn from_name<T: Enumeration>(name: &str) -> (r: Option<T>)
    ensures
        r == spelled::<T>(name@),
{
    lookup(T::spellings(), name)
}

/// What decoding a document as the enumeration `T` comes to: a string that
/// the table lists gives its variant, another string is an unknown name, and
/// anything but a string has the wrong shape.
pub open spec fn named<T: Enumeration>(json: Json) -> Result<T, DecodeError> {
    match json {
        Json::String(s) => match spelled::<T>(s@) {
            Some(v) => Ok(v),
            None => Err(DecodeError::UnknownName),
        },
        _ => Err(DecodeError::Structure),
    }
}

/// Decodes a variant of `T` from the string that spells it.
pub fn decode_name<T: Enumeration>(json: &Json) -> (r: Result<T, DecodeError>)
    ensures
        r == named::<T>(*json),
{
    match json {
        Json::String(s) => match from_name::<T>(s.as_str()) {
            Some(v) => Ok(v),
            None => Err(DecodeError::UnknownName),
        },
        _ => Err(DecodeError::Structure),
    }
}

/// Every spelling in the table of `T` decodes to the variant it is listed for.
pub proof fn lemma_listed_spelling<T: Enumeration>(i: int)
    requires
        0 <= i < T::table().len(),
    ensures
        spelled::<T>(T::table()[i].0@) == Some(T::table()[i].1),
{
    T::spellings_ascend();
    let table = T::table();
    assert forall|j: int| 0 <= j < i implies (#[trigger] table[j]).0@ != table[i].0@ by {
        lemma_distinct(table, j, i);
    }
    lemma_resolve_first(table, i);
}

/// Any two spellings listed for one variant, an alias and the canonical name
/// or two aliases, decode to the same variant: the one they are listed for.
pub proof fn lemma_aliases_agree<T: Enumeration>(i: int, j: int)
    requires
        0 <= i < T::table().len(),
        0 <= j < T::table().len(),
        T::table()[i].1 == T::table()[j].1,
    ensures
        spelled::<T>(T::table()[i].0@) == spelled::<T>(T::table()[j].0@),
        spelled::<T>(T::table()[i].0@) == Some(T::table()[i].1),
{
    lemma_listed_spelling::<T>(i);
    lemma_listed_spelling::<T>(j);
}

/// A string that the table of `T` does not list is not decoded: aliases add
/// spellings, they do not make the decoder lenient.
pub proof fn lemma_unlisted_name_refused<T: Enumeration>(name: Seq<char>)
    requires
        forall|i: int| 0 <= i < T::table().len() ==> (#[trigger] T::table()[i]).0@ != name,
    ensures
        spelled::<T>(name) is None,
{
    lemma_resolve_sound(T::table(), name);
}

} // verus!
