//! Which headers a presigned request shows: all that the signed request
//! holds but `Host`, which the HTTP client sends from the URI.

use vstd::prelude::*;

verus! {

/// A header as text: its name and its value.
pub type HeaderText = (Seq<char>, Seq<char>);

/// Whether a header name is `Host`, in whatever case.
pub open spec fn is_host(name: Seq<char>) -> bool {
    &&& name.len() == 4
    &&& (name[0] == 'h' || name[0] == 'H')
    &&& (name[1] == 'o' || name[1] == 'O')
    &&& (name[2] == 's' || name[2] == 'S')
    &&& (name[3] == 't' || name[3] == 'T')
}

/// The headers that are not named `Host`, in the order in which they stand.
pub open spec fn without_host(headers: Seq<HeaderText>) -> Seq<HeaderText>
    decreases headers.len(),
{
    if headers.len() == 0 {
        headers
    } else {
        let before = without_host(headers.drop_last());
        if is_host(headers.last().0) {
            before
        } else {
            before.push(headers.last())
        }
    }
}

/// Nothing that [`without_host`] keeps is named `Host`, and everything it
/// keeps is one of the headers it was given.
pub proof fn lemma_without_host_keeps_no_host(headers: Seq<HeaderText>)
    ensures
        without_host(headers).len() <= headers.len(),
        forall|i: int|
            0 <= i < without_host(headers).len() ==> {
                &&& !is_host((#[trigger] without_host(headers)[i]).0)
                &&& headers.contains(without_host(headers)[i])
            },
    decreases headers.len(),
{
    if headers.len() > 0 {
        let front = headers.drop_last();
        lemma_without_host_keeps_no_host(front);
        assert forall|i: int| 0 <= i < without_host(headers).len() implies headers.contains(
            #[trigger] without_host(headers)[i],
        ) by {
            if i < without_host(front).len() {
                let j = choose|j: int| 0 <= j < front.len() && front[j] == without_host(front)[i];
                assert(headers[j] == without_host(headers)[i]);
            } else {
                assert(headers[headers.len() - 1] == without_host(headers)[i]);
            }
        }
    }
}

/// Every header that is not named `Host` is kept by [`without_host`].
pub proof fn lemma_without_host_keeps_the_others(headers: Seq<HeaderText>, i: int)
    requires
        0 <= i < headers.len(),
        !is_host(headers[i].0),
    ensures
        without_host(headers).contains(headers[i]),
    decreases headers.len(),
{
    let front = headers.drop_last();
    if i == headers.len() - 1 {
        let kept = without_host(headers);
        assert(kept[kept.len() - 1] == headers[i]);
    } else {
        lemma_without_host_keeps_the_others(front, i);
        let j = choose|j: int|
            0 <= j < without_host(front).len() && without_host(front)[j] == front[i];
        assert(without_host(headers)[j] == headers[i]);
    }
}

/// Where no header is named `Host`, [`without_host`] keeps them all.
pub proof fn lemma_without_host_of_no_host(headers: Seq<HeaderText>)
    requires
        forall|i: int| 0 <= i < headers.len() ==> !is_host((#[trigger] headers[i]).0),
    ensures
        without_host(headers) == headers,
    decreases headers.len(),
{
    if headers.len() > 0 {
        lemma_without_host_of_no_host(headers.drop_last());
        assert(headers.drop_last().push(headers.last()) =~= headers);
    }
}

/// Whether `name` is `Host`, in whatever case.
pub fn is_host_name(name: &str) -> (is_it: bool)
    ensures
        is_it == is_host(name@),
{
    if !name.is_ascii() {
        return false;
    }
    let bytes = name.as_bytes();
    proof {
        vstd::string::is_ascii_spec_bytes(name);
    }
    if bytes.len() != 4 {
        return false;
    }
    assert(forall|k: int| 0 <= k < 4 ==> bytes@[k] == (#[trigger] name@[k]) as u8);
    // `h o s t` and `H O S T`, by their ASCII codes.
    (bytes[0] == 0x68 || bytes[0] == 0x48) && (bytes[1] == 0x6f || bytes[1] == 0x4f) && (bytes[2]
        == 0x73 || bytes[2] == 0x53) && (bytes[3] == 0x74 || bytes[3] == 0x54)
}

/// The headers that are not named `Host`, in the order in which they stand.
pub fn drop_host<'a>(headers: Vec<(&'a str, &'a str)>) -> (shown: Vec<(&'a str, &'a str)>)
    ensures
        shown.deep_view() == without_host(headers.deep_view()),
{
    let mut shown: Vec<(&'a str, &'a str)> = Vec::new();
    let n = headers.len();
    let mut i: usize = 0;
    assert(headers.deep_view().take(0) =~= Seq::<HeaderText>::empty());
    while i < n
        invariant
            n == headers.len(),
            i <= n,
            shown.deep_view() == without_host(headers.deep_view().take(i as int)),
        decreases n - i,
    {
        let (name, value) = headers[i];
        let ghost before = shown.deep_view();
        let ghost all = headers.deep_view();
        assert(all.take(i + 1).drop_last() =~= all.take(i as int));
        assert(all.take(i + 1).last() == (name@, value@));
        if !is_host_name(name) {
            shown.push((name, value));
            assert(shown.deep_view() =~= before.push((name@, value@)));
        }
        i = i + 1;
    }
    assert(headers.deep_view().take(n as int) =~= headers.deep_view());
    shown
}

} // verus!
