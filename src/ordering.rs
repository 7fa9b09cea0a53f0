use vstd::prelude::*;

verus! {

/// Position of the last `'.'` among the first `n` characters of `name`, or
/// -1 if there is none.
pub open spec fn last_dot_before(name: Seq<char>, n: int) -> int
    decreases n,
{
    if n <= 0 {
        -1
    } else if name[n - 1] == '.' {
        n - 1
    } else {
        last_dot_before(name, n - 1)
    }
}

/// Extension of a file name: what follows its last `'.'`, where that dot is
/// not the name's first character.
pub open spec fn extension_of(name: Seq<char>) -> Option<Seq<char>> {
    let p = last_dot_before(name, name.len() as int);
    if p <= 0 {
        None
    } else {
        Some(name.subrange(p + 1, name.len() as int))
    }
}

/// Whether a file name has one of the scan extensions `jpg`, `jpeg`, `tiff`.
pub open spec fn is_scan_name(name: Seq<char>) -> bool {
    match extension_of(name) {
        Some(e) => e == seq!['j', 'p', 'g'] || e == seq!['j', 'p', 'e', 'g'] || e == seq![
            't',
            'i',
            'f',
            'f',
        ],
        None => false,
    }
}

/// Character-wise lexicographic order by code point; on UTF-8 text it is the
/// byte-wise order.
pub open spec fn name_le(a: Seq<char>, b: Seq<char>) -> bool
    decreases a.len(),
{
    if a.len() == 0 {
        true
    } else if b.len() == 0 {
        false
    } else if a[0] != b[0] {
        (a[0] as u32) < (b[0] as u32)
    } else {
        name_le(a.drop_first(), b.drop_first())
    }
}

/// The character sequences of a list of names.
pub open spec fn views(v: Seq<String>) -> Seq<Seq<char>> {
    v.map_values(|s: String| s@)
}

/// Whether the names are in ascending order.
pub open spec fn sorted_names(v: Seq<Seq<char>>) -> bool {
    forall|i: int, j: int| 0 <= i < j < v.len() ==> name_le(#[trigger] v[i], #[trigger] v[j])
}

/// The scan names among `names`, in their order.
pub open spec fn scan_names(names: Seq<Seq<char>>) -> Seq<Seq<char>>
    decreases names.len(),
{
    if names.len() == 0 {
        Seq::empty()
    } else {
        let rest = scan_names(names.drop_last());
        if is_scan_name(names.last()) {
            rest.push(names.last())
        } else {
            rest
        }
    }
}

/// Relies on `slice::sort` on `String`s: a stable sort by `Ord for str`,
/// which compares the bytes lexicographically.
#[verifier::external_body]
fn sort_strings(v: &mut Vec<String>)
    ensures
        views(final(v)@).to_multiset() == views(old(v)@).to_multiset(),
        sorted_names(views(final(v)@)),
{
    v.sort();
}

fn chars_equal(name: &str, from: usize, ext: &str) -> (r: bool)
    requires
        from <= name@.len(),
    ensures
        r == (name@.subrange(from as int, name@.len() as int) == ext@),
{
    let len = name.unicode_len();
    let elen = ext.unicode_len();
    if len - from != elen {
        assert(name@.subrange(from as int, len as int).len() != ext@.len());
        return false;
    }
    let mut k: usize = 0;
    while k < elen
        invariant
            len == name@.len(),
            elen == ext@.len(),
            from + elen == len,
            k <= elen,
            forall|j: int| 0 <= j < k ==> name@[from + j] == ext@[j],
        decreases elen - k,
    {
        if name.get_char(from + k) != ext.get_char(k) {
            assert(name@.subrange(from as int, len as int)[k as int] != ext@[k as int]);
            return false;
        }
        k = k + 1;
    }
    assert(name@.subrange(from as int, len as int) =~= ext@);
    true
}

/// Whether `name` is the file name of a scan: its extension is `jpg`, `jpeg`
/// or `tiff`, in lower case.
pub fn is_scan_file(name: &str) -> (r: bool)
    ensures
        r == is_scan_name(name@),
{
    let len = name.unicode_len();
    let mut n: usize = len;
    while n > 0 && name.get_char(n - 1) != '.'
        invariant
            len == name@.len(),
            n <= len,
            last_dot_before(name@, len as int) == last_dot_before(name@, n as int),
        decreases n,
    {
        n = n - 1;
    }
    proof {
        if n > 0 {
            assert(last_dot_before(name@, n as int) == n - 1);
        }
    }
    if n <= 1 {
        return false;
    }
    proof {
        reveal_strlit("jpg");
        reveal_strlit("jpeg");
        reveal_strlit("tiff");
        assert("jpg"@ =~= seq!['j', 'p', 'g']);
        assert("jpeg"@ =~= seq!['j', 'p', 'e', 'g']);
        assert("tiff"@ =~= seq!['t', 'i', 'f', 'f']);
    }
    chars_equal(name, n, "jpg") || chars_equal(name, n, "jpeg") || chars_equal(name, n, "tiff")
}

/// The scan file names among `names`, in ascending byte order.
pub fn scan_order(names: Vec<String>) -> (r: Vec<String>)
    ensures
        views(r@).to_multiset() == scan_names(views(names@)).to_multiset(),
        sorted_names(views(r@)),
{
    let ghost all = views(names@);
    let n = names.len();
    let mut rest = names;
    let mut picked: Vec<String> = Vec::new();
    let mut k: usize = 0;
    while rest.len() > 0
        invariant
            k + rest@.len() == n,
            all.len() == n,
            views(rest@) == all.subrange(k as int, n as int),
            views(picked@) == scan_names(all.take(k as int)),
        decreases rest@.len(),
    {
        let ghost before = rest@;
        let name = rest.remove(0);
        proof {
            assert(all.take(k as int + 1).drop_last() =~= all.take(k as int));
            assert(views(before)[0] == all[k as int]);
            assert(views(rest@) =~= views(before).subrange(1, before.len() as int));
            assert(views(rest@) =~= all.subrange(k + 1, n as int));
        }
        if is_scan_file(name.as_str()) {
            picked.push(name);
        }
        k = k + 1;
        assert(views(picked@) =~= scan_names(all.take(k as int)));
    }
    assert(all.take(k as int) =~= all);
    sort_strings(&mut picked);
    picked
}

} // verus!
