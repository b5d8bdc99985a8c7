use vstd::prelude::*;

verus! {

/// One HTTP header whose value is valid text.
#[derive(Debug, Clone, PartialEq, Eq)]
pub struct Header {
    pub name: String,
    pub value: String,
}

/// A character with ASCII upper case letters folded to lower case.
pub open spec fn fold_char(c: char) -> u32 {
    if 'A' <= c && c <= 'Z' {
        (c as u32 + 32) as u32
    } else {
        c as u32
    }
}

/// Equality of two texts up to ASCII case, as HTTP header names compare.
pub open spec fn eq_ignore_case(a: Seq<char>, b: Seq<char>) -> bool {
    a.len() == b.len() && forall|i: int| 0 <= i < a.len() ==> fold_char(a[i]) == fold_char(b[i])
}

/// `needle` occurs in `hay` at position `i`, up to ASCII case.
pub open spec fn occurs_at(hay: Seq<char>, needle: Seq<char>, i: int) -> bool {
    0 <= i && i + needle.len() <= hay.len() && eq_ignore_case(
        hay.subrange(i, i + needle.len()),
        needle,
    )
}

/// `needle` occurs somewhere in `hay`, up to ASCII case.
pub open spec fn contains_ignore_case(hay: Seq<char>, needle: Seq<char>) -> bool {
    exists|i: int| occurs_at(hay, needle, i)
}

/// The headers of a raw list whose value could be read as text, in order.
pub open spec fn text_headers(raw: Seq<(String, Option<String>)>) -> Seq<Header>
    decreases raw.len(),
{
    if raw.len() == 0 {
        seq![]
    } else {
        let rest = text_headers(raw.drop_last());
        match raw.last().1 {
            Some(v) => rest.push(Header { name: raw.last().0, value: v }),
            None => rest,
        }
    }
}

/// The value of the first header called `name`, up to ASCII case.
pub open spec fn header_value(hs: Seq<Header>, name: Seq<char>) -> Option<String>
    decreases hs.len(),
{
    if hs.len() == 0 {
        None
    } else if eq_ignore_case(hs[0].name@, name) {
        Some(hs[0].value)
    } else {
        header_value(hs.drop_first(), name)
    }
}

/// The headers that are not called `name`, up to ASCII case, in order.
pub open spec fn without_header(hs: Seq<Header>, name: Seq<char>) -> Seq<Header>
    decreases hs.len(),
{
    if hs.len() == 0 {
        seq![]
    } else {
        let rest = without_header(hs.drop_last(), name);
        if eq_ignore_case(hs.last().name@, name) {
            rest
        } else {
            rest.push(hs.last())
        }
    }
}

/// No header of `without_header(hs, name)` is called `name`.
pub proof fn lemma_without_header_has_none(hs: Seq<Header>, name: Seq<char>)
    ensures
        forall|i: int|
            0 <= i < without_header(hs, name).len() ==> !eq_ignore_case(
                #[trigger] without_header(hs, name)[i].name@,
                name,
            ),
    decreases hs.len(),
{
    if hs.len() > 0 {
        lemma_without_header_has_none(hs.drop_last(), name);
        let rest = without_header(hs.drop_last(), name);
        if !eq_ignore_case(hs.last().name@, name) {
            assert forall|i: int| 0 <= i < rest.push(hs.last()).len() implies !eq_ignore_case(
                #[trigger] rest.push(hs.last())[i].name@,
                name,
            ) by {
                if i < rest.len() {
                    assert(rest.push(hs.last())[i] == rest[i]);
                }
            }
        }
    }
}

fn fold(c: char) -> (r: u32)
    ensures
        r == fold_char(c),
{
    if 'A' <= c && c <= 'Z' {
        c as u32 + 32
    } else {
        c as u32
    }
}

/// Compares `hay[from..from + needle.len()]` with `needle` up to ASCII case.
fn matches_at(hay: &str, needle: &str, from: usize) -> (r: bool)
    requires
        from + needle@.len() <= hay@.len(),
    ensures
        r == occurs_at(hay@, needle@, from as int),
{
    let n = needle.unicode_len();
    let h = hay.unicode_len();
    let mut j: usize = 0;
    while j < n
        invariant
            n == needle@.len(),
            h == hay@.len(),
            from + n <= hay@.len(),
            j <= n,
            forall|k: int| 0 <= k < j ==> fold_char(hay@[from + k]) == fold_char(needle@[k]),
        decreases n - j,
    {
        if fold(hay.get_char(from + j)) != fold(needle.get_char(j)) {
            assert(!eq_ignore_case(hay@.subrange(from as int, from + n), needle@)) by {
                assert(hay@.subrange(from as int, from + n)[j as int] == hay@[from + j]);
            }
            return false;
        }
        j = j + 1;
    }
    assert(eq_ignore_case(hay@.subrange(from as int, from + n), needle@)) by {
        assert forall|k: int| 0 <= k < n implies fold_char(
            hay@.subrange(from as int, from + n)[k],
        ) == fold_char(needle@[k]) by {
            assert(hay@.subrange(from as int, from + n)[k] == hay@[from + k]);
        }
    }
    true
}

/// Whether two texts are equal, character for character.
pub fn str_equal(a: &str, b: &str) -> (r: bool)
    ensures
        r == (a@ == b@),
{
    let n = a.unicode_len();
    if n != b.unicode_len() {
        return false;
    }
    let mut i: usize = 0;
    while i < n
        invariant
            n == a@.len(),
            n == b@.len(),
            i <= n,
            forall|j: int| 0 <= j < i ==> a@[j] == b@[j],
        decreases n - i,
    {
        if a.get_char(i) != b.get_char(i) {
            return false;
        }
        i = i + 1;
    }
    assert(a@ =~= b@);
    true
}

/// Whether two texts are equal up to ASCII case.
pub fn equals_ignore_case(a: &str, b: &str) -> (r: bool)
    ensures
        r == eq_ignore_case(a@, b@),
{
    if a.unicode_len() != b.unicode_len() {
        return false;
    }
    let r = matches_at(a, b, 0);
    assert(a@.subrange(0, b@.len() as int) =~= a@);
    r
}

/// Whether `needle` occurs in `hay` up to ASCII case.
pub fn contains_text_ignore_case(hay: &str, needle: &str) -> (r: bool)
    ensures
        r == contains_ignore_case(hay@, needle@),
{
    let h = hay.unicode_len();
    let n = needle.unicode_len();
    if n > h {
        return false;
    }
    let mut i: usize = 0;
    while i <= h - n
        invariant
            h == hay@.len(),
            n == needle@.len(),
            n <= h,
            i <= h - n + 1,
            forall|k: int| 0 <= k < i ==> !occurs_at(hay@, needle@, k),
        decreases h - n + 1 - i,
    {
        if matches_at(hay, needle, i) {
            return true;
        }
        i = i + 1;
    }
    assert forall|k: int| !occurs_at(hay@, needle@, k) by {
        if 0 <= k && k < i {
        }
    }
    false
}

/// Keeps the headers whose value could be read as text; the others are
/// dropped, not reported.
pub fn collect_headers(raw: &Vec<(String, Option<String>)>) -> (r: Vec<Header>)
    ensures
        r@ == text_headers(raw@),
{
    let mut out: Vec<Header> = Vec::new();
    let mut i: usize = 0;
    while i < raw.len()
        invariant
            i <= raw@.len(),
            out@ == text_headers(raw@.subrange(0, i as int)),
        decreases raw@.len() - i,
    {
        assert(raw@.subrange(0, i + 1).drop_last() =~= raw@.subrange(0, i as int));
        match &raw[i].1 {
            Some(v) => {
                out.push(Header { name: raw[i].0.clone(), value: v.clone() });
            },
            None => {},
        }
        i = i + 1;
    }
    assert(raw@.subrange(0, raw@.len() as int) =~= raw@);
    out
}

/// The value of the first header called `name`, up to ASCII case.
pub fn find_header(headers: &Vec<Header>, name: &str) -> (r: Option<String>)
    ensures
        r == header_value(headers@, name@),
{
    let mut i: usize = 0;
    assert(headers@.subrange(0, headers@.len() as int) =~= headers@);
    while i < headers.len()
        invariant
            i <= headers@.len(),
            header_value(headers@, name@) == header_value(headers@.subrange(i as int, headers@.len() as int), name@),
        decreases headers@.len() - i,
    {
        let tail = Ghost(headers@.subrange(i as int, headers@.len() as int));
        assert(tail@[0] == headers@[i as int]);
        assert(tail@.drop_first() =~= headers@.subrange(i + 1, headers@.len() as int));
        if equals_ignore_case(headers[i].name.as_str(), name) {
            return Some(headers[i].value.clone());
        }
        i = i + 1;
    }
    None
}

/// Removes every header called `name`, up to ASCII case, keeping the order
/// of the others.
pub fn remove_header(headers: Vec<Header>, name: &str) -> (r: Vec<Header>)
    ensures
        r@ == without_header(headers@, name@),
{
    let mut out: Vec<Header> = Vec::new();
    let mut i: usize = 0;
    while i < headers.len()
        invariant
            i <= headers@.len(),
            out@ == without_header(headers@.subrange(0, i as int), name@),
        decreases headers@.len() - i,
    {
        assert(headers@.subrange(0, i + 1).drop_last() =~= headers@.subrange(0, i as int));
        if !equals_ignore_case(headers[i].name.as_str(), name) {
            out.push(Header { name: headers[i].name.clone(), value: headers[i].value.clone() });
        }
        i = i + 1;
    }
    assert(headers@.subrange(0, headers@.len() as int) =~= headers@);
    out
}

} // verus!
