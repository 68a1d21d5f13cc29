//! Requests and responses as plain values, and header lists with the
//! case-insensitive names of HTTP.

use vstd::prelude::*;

verus! {

/// The code of `c` with ASCII upper-case letters folded to lower case.
pub open spec fn ascii_lower(c: char) -> u32 {
    if 'A' <= c && c <= 'Z' {
        (c as u32 + 32) as u32
    } else {
        c as u32
    }
}

/// Whether two header names are the same, ignoring ASCII case.
pub open spec fn same_name(a: Seq<char>, b: Seq<char>) -> bool {
    &&& a.len() == b.len()
    &&& forall|i: int| 0 <= i < a.len() ==> ascii_lower(#[trigger] a[i]) == ascii_lower(b[i])
}

fn lower_code(c: char) -> (res: u32)
    ensures
        res == ascii_lower(c),
{
    if 'A' <= c && c <= 'Z' {
        c as u32 + 32
    } else {
        c as u32
    }
}

/// Compares two header names, ignoring ASCII case.
pub fn eq_ignore_ascii_case(a: &str, b: &str) -> (res: bool)
    ensures
        res == same_name(a@, b@),
{
    let n = a.unicode_len();
    if n != b.unicode_len() {
        return false;
    }
    let mut i: usize = 0;
    while i < n
        invariant
            n == a@.len(),
            n == b@.len(),
            i <= n,
            forall|k: int| 0 <= k < i ==> ascii_lower(#[trigger] a@[k]) == ascii_lower(b@[k]),
        decreases n - i,
    {
        if lower_code(a.get_char(i)) != lower_code(b.get_char(i)) {
            return false;
        }
        i += 1;
    }
    true
}

/// One header: a name and a value.
#[derive(Debug)]
pub struct Header {
    /// The name, compared without regard to ASCII case.
    pub name: String,
    /// The value.
    pub value: String,
}

impl View for Header {
    type V = (Seq<char>, Seq<char>);

    open spec fn view(&self) -> (Seq<char>, Seq<char>) {
        (self.name@, self.value@)
    }
}

/// A list of headers in the order they were added. A name may occur more
/// than once.
#[derive(Debug)]
pub struct HeaderList {
    /// The headers, in order.
    pub entries: Vec<Header>,
}

impl View for HeaderList {
    type V = Seq<(Seq<char>, Seq<char>)>;

    open spec fn view(&self) -> Seq<(Seq<char>, Seq<char>)> {
        Seq::new(self.entries@.len(), |i: int| self.entries@[i]@)
    }
}

/// The values that `headers` holds under `name`, in order.
pub open spec fn values_of(headers: Seq<(Seq<char>, Seq<char>)>, name: Seq<char>) -> Seq<Seq<char>>
    decreases headers.len(),
{
    if headers.len() == 0 {
        Seq::empty()
    } else if same_name(headers.last().0, name) {
        values_of(headers.drop_last(), name).push(headers.last().1)
    } else {
        values_of(headers.drop_last(), name)
    }
}

/// `headers` without the entries named `name`.
pub open spec fn without_name(headers: Seq<(Seq<char>, Seq<char>)>, name: Seq<char>) -> Seq<
    (Seq<char>, Seq<char>),
>
    decreases headers.len(),
{
    if headers.len() == 0 {
        Seq::empty()
    } else if same_name(headers.last().0, name) {
        without_name(headers.drop_last(), name)
    } else {
        without_name(headers.drop_last(), name).push(headers.last())
    }
}

/// `headers` with the first entry named `name` set to `value` and every
/// later entry of that name removed. The other entries keep their places.
pub open spec fn replaced_header(
    headers: Seq<(Seq<char>, Seq<char>)>,
    name: Seq<char>,
    value: Seq<char>,
) -> Seq<(Seq<char>, Seq<char>)>
    decreases headers.len(),
{
    if headers.len() == 0 {
        Seq::empty()
    } else if same_name(headers.last().0, name) {
        if values_of(headers.drop_last(), name).len() > 0 {
            replaced_header(headers.drop_last(), name, value)
        } else {
            headers.drop_last().push((name, value))
        }
    } else {
        replaced_header(headers.drop_last(), name, value).push(headers.last())
    }
}

/// `headers` with `name` set to the single value `value`. Where the name is
/// there already, its first entry takes the value and keeps its place, and
/// its other entries leave; where it is not, the entry is added at the end.
pub open spec fn with_header(
    headers: Seq<(Seq<char>, Seq<char>)>,
    name: Seq<char>,
    value: Seq<char>,
) -> Seq<(Seq<char>, Seq<char>)> {
    if values_of(headers, name).len() > 0 {
        replaced_header(headers, name, value)
    } else {
        headers.push((name, value))
    }
}

/// The first value that `headers` holds under `name`.
pub open spec fn first_value(headers: Seq<(Seq<char>, Seq<char>)>, name: Seq<char>) -> Option<
    Seq<char>,
> {
    if values_of(headers, name).len() > 0 {
        Some(values_of(headers, name)[0])
    } else {
        None
    }
}

/// A header name never survives its own removal.
pub proof fn lemma_without_name_has_none(headers: Seq<(Seq<char>, Seq<char>)>, name: Seq<char>)
    ensures
        values_of(without_name(headers, name), name).len() == 0,
    decreases headers.len(),
{
    if headers.len() > 0 {
        lemma_without_name_has_none(headers.drop_last(), name);
        if !same_name(headers.last().0, name) {
            let kept = without_name(headers.drop_last(), name).push(headers.last());
            assert(kept.drop_last() =~= without_name(headers.drop_last(), name));
            assert(kept.last() == headers.last());
        }
    }
}

proof fn lemma_replaced_header_value(
    headers: Seq<(Seq<char>, Seq<char>)>,
    name: Seq<char>,
    value: Seq<char>,
)
    requires
        values_of(headers, name).len() > 0,
    ensures
        values_of(replaced_header(headers, name, value), name) == seq![value],
    decreases headers.len(),
{
    let init = headers.drop_last();
    let last = headers.last();
    assert(same_name(name, name));
    if same_name(last.0, name) {
        if values_of(init, name).len() > 0 {
            lemma_replaced_header_value(init, name, value);
        } else {
            let set = init.push((name, value));
            assert(set.drop_last() =~= init);
            assert(set.last() == (name, value));
            assert(values_of(set, name) =~= seq![value]);
        }
    } else {
        lemma_replaced_header_value(init, name, value);
        let set = replaced_header(init, name, value).push(last);
        assert(set.drop_last() =~= replaced_header(init, name, value));
        assert(set.last() == last);
    }
}

/// After a header is set, it holds exactly the value it was set to.
pub proof fn lemma_with_header_value(
    headers: Seq<(Seq<char>, Seq<char>)>,
    name: Seq<char>,
    value: Seq<char>,
)
    ensures
        values_of(with_header(headers, name, value), name) == seq![value],
        first_value(with_header(headers, name, value), name) == Some(value),
{
    assert(same_name(name, name));
    if values_of(headers, name).len() > 0 {
        lemma_replaced_header_value(headers, name, value);
    } else {
        let set = headers.push((name, value));
        assert(set.drop_last() =~= headers);
        assert(set.last() == (name, value));
        assert(values_of(set, name) =~= seq![value]);
    }
}

impl HeaderList {
    /// An empty list.
    pub fn new() -> (res: HeaderList)
        ensures
            res@ == Seq::<(Seq<char>, Seq<char>)>::empty(),
    {
        let res = HeaderList { entries: Vec::new() };
        assert(res@ =~= Seq::<(Seq<char>, Seq<char>)>::empty());
        res
    }

    /// The number of headers.
    pub fn len(&self) -> (res: usize)
        ensures
            res == self@.len(),
    {
        self.entries.len()
    }

    /// Adds a header at the end and keeps what is there.
    pub fn append(&mut self, name: &str, value: &str)
        ensures
            final(self)@ == old(self)@.push((name@, value@)),
    {
        self.entries.push(Header { name: name.to_owned(), value: value.to_owned() });
        assert(self@ =~= old(self)@.push((name@, value@)));
    }

    /// Removes every header named `name`.
    pub fn remove(&mut self, name: &str)
        ensures
            final(self)@ == without_name(old(self)@, name@),
    {
        let mut kept: Vec<Header> = Vec::new();
        let mut source: Vec<Header> = Vec::new();
        std::mem::swap(&mut source, &mut self.entries);
        let ghost all = old(self)@;
        let n = source.len();
        let mut i: usize = 0;
        proof {
            assert(all.take(0) =~= Seq::<(Seq<char>, Seq<char>)>::empty());
        }
        while i < n
            invariant
                n == source@.len(),
                i <= n,
                all.len() == n,
                forall|k: int| 0 <= k < n ==> #[trigger] all[k] == source@[k]@,
                Seq::new(kept@.len(), |j: int| kept@[j]@) == without_name(all.take(i as int), name@),
            decreases n - i,
        {
            let entry = &source[i];
            proof {
                let next = all.take(i as int + 1);
                assert(next.drop_last() =~= all.take(i as int));
                assert(next.last() == entry@);
            }
            if !eq_ignore_ascii_case(entry.name.as_str(), name) {
                let ghost before = Seq::new(kept@.len(), |j: int| kept@[j]@);
                kept.push(Header { name: entry.name.clone(), value: entry.value.clone() });
                proof {
                    assert(Seq::new(kept@.len(), |j: int| kept@[j]@) =~= before.push(entry@));
                }
            }
            i += 1;
        }
        proof {
            assert(all.take(n as int) =~= all);
        }
        self.entries = kept;
        assert(self@ =~= without_name(all, name@));
    }

    /// Sets `name` to the single value `value`. Where the name is there
    /// already, its first entry takes the value and keeps its place, and its
    /// other entries leave; where it is not, the entry is added at the end.
    pub fn insert(&mut self, name: &str, value: &str)
        ensures
            final(self)@ == with_header(old(self)@, name@, value@),
    {
        let mut kept: Vec<Header> = Vec::new();
        let mut source: Vec<Header> = Vec::new();
        std::mem::swap(&mut source, &mut self.entries);
        let ghost all = old(self)@;
        let n = source.len();
        let mut placed = false;
        let mut i: usize = 0;
        proof {
            assert(all.take(0) =~= Seq::<(Seq<char>, Seq<char>)>::empty());
            assert(Seq::new(kept@.len(), |j: int| kept@[j]@) =~= all.take(0));
        }
        while i < n
            invariant
                n == source@.len(),
                i <= n,
                all.len() == n,
                forall|k: int| 0 <= k < n ==> #[trigger] all[k] == source@[k]@,
                placed == (values_of(all.take(i as int), name@).len() > 0),
                Seq::new(kept@.len(), |j: int| kept@[j]@) == (if placed {
                    replaced_header(all.take(i as int), name@, value@)
                } else {
                    all.take(i as int)
                }),
            decreases n - i,
        {
            let entry = &source[i];
            let ghost before = Seq::new(kept@.len(), |j: int| kept@[j]@);
            proof {
                let next = all.take(i as int + 1);
                assert(next.drop_last() =~= all.take(i as int));
                assert(next.last() == entry@);
            }
            if eq_ignore_ascii_case(entry.name.as_str(), name) {
                if !placed {
                    kept.push(Header { name: name.to_owned(), value: value.to_owned() });
                    placed = true;
                    proof {
                        assert(Seq::new(kept@.len(), |j: int| kept@[j]@) =~= before.push(
                            (name@, value@),
                        ));
                    }
                }
            } else {
                kept.push(Header { name: entry.name.clone(), value: entry.value.clone() });
                proof {
                    assert(Seq::new(kept@.len(), |j: int| kept@[j]@) =~= before.push(entry@));
                }
            }
            i += 1;
        }
        proof {
            assert(all.take(n as int) =~= all);
        }
        if !placed {
            let ghost before = Seq::new(kept@.len(), |j: int| kept@[j]@);
            kept.push(Header { name: name.to_owned(), value: value.to_owned() });
            proof {
                assert(Seq::new(kept@.len(), |j: int| kept@[j]@) =~= before.push((name@, value@)));
            }
        }
        self.entries = kept;
        assert(self@ =~= with_header(all, name@, value@));
    }

    /// The values held under `name`, in order.
    pub fn get_all(&self, name: &str) -> (res: Vec<String>)
        ensures
            crate::text::views(res@) == values_of(self@, name@),
    {
        let mut found: Vec<String> = Vec::new();
        let n = self.entries.len();
        let mut i: usize = 0;
        proof {
            assert(self@.take(0) =~= Seq::<(Seq<char>, Seq<char>)>::empty());
        }
        while i < n
            invariant
                n == self.entries@.len(),
                i <= n,
                crate::text::views(found@) == values_of(self@.take(i as int), name@),
            decreases n - i,
        {
            let entry = &self.entries[i];
            proof {
                let next = self@.take(i as int + 1);
                assert(next.drop_last() =~= self@.take(i as int));
                assert(next.last() == entry@);
            }
            if eq_ignore_ascii_case(entry.name.as_str(), name) {
                let ghost before = crate::text::views(found@);
                found.push(entry.value.clone());
                proof {
                    assert(crate::text::views(found@) =~= before.push(entry.value@));
                }
            }
            i += 1;
        }
        proof {
            assert(self@.take(n as int) =~= self@);
        }
        found
    }

    /// The first value held under `name`.
    pub fn get(&self, name: &str) -> (res: Option<String>)
        ensures
            res is Some <==> first_value(self@, name@) is Some,
            res is Some ==> res->0@ == first_value(self@, name@)->0,
    {
        let all = self.get_all(name);
        if all.len() > 0 {
            Some(all[0].clone())
        } else {
            None
        }
    }

    /// A copy of the list.
    pub fn duplicate(&self) -> (res: HeaderList)
        ensures
            res@ == self@,
    {
        let mut copy = HeaderList::new();
        copy.extend(self);
        assert(copy@ =~= self@);
        copy
    }

    /// Adds every header of `other` at the end, in order.
    pub fn extend(&mut self, other: &HeaderList)
        ensures
            final(self)@ == old(self)@ + other@,
    {
        let n = other.entries.len();
        let mut i: usize = 0;
        proof {
            assert(other@.take(0) =~= Seq::<(Seq<char>, Seq<char>)>::empty());
            assert(self@ =~= old(self)@ + other@.take(0));
        }
        while i < n
            invariant
                n == other.entries@.len(),
                i <= n,
                self@ == old(self)@ + other@.take(i as int),
            decreases n - i,
        {
            let entry = &other.entries[i];
            let ghost before = self@;
            self.append(entry.name.as_str(), entry.value.as_str());
            proof {
                assert(other@.take(i as int + 1) =~= other@.take(i as int).push(entry@));
                assert(self@ =~= old(self)@ + other@.take(i as int + 1));
            }
            i += 1;
        }
        proof {
            assert(other@.take(n as int) =~= other@);
        }
    }
}

/// The method of a request.
#[derive(Clone, Copy, Debug, PartialEq, Eq, Structural)]
pub enum Method {
    Get,
    Post,
    Put,
}

/// Whether a status code reports success: 200 to 299.
pub open spec fn is_success(status: u16) -> bool {
    200 <= status && status <= 299
}

/// Tells whether a status code reports success.
pub fn status_is_success(status: u16) -> (res: bool)
    ensures
        res == is_success(status),
{
    200 <= status && status <= 299
}

} // verus!
