use vstd::prelude::*;

verus! {

/// The byte that separates path components.
pub const PATH_SEP: u8 = 47;

/// The byte that separates a file name from its extension.
pub const DOT: u8 = 46;

/// A dropped file's path, kept as the bytes of its textual form. The core
/// reads nothing of a path but its final component's extension, so this
/// byte view is all it keeps; the host application converts from its own
/// path type.
#[derive(Debug)]
pub struct TexPath {
    bytes: Vec<u8>,
}

impl View for TexPath {
    type V = Seq<u8>;

    closed spec fn view(&self) -> Seq<u8> {
        self.bytes@
    }
}

impl TexPath {
    pub fn new(bytes: Vec<u8>) -> (r: Self)
        ensures
            r@ == bytes@,
    {
        TexPath { bytes }
    }

    pub fn as_bytes(&self) -> (r: &Vec<u8>)
        ensures
            r@ == self@,
    {
        &self.bytes
    }
}

impl Clone for TexPath {
    /// Cloning keeps the path's bytes unchanged.
    fn clone(&self) -> (r: Self)
        ensures
            r@ == self@,
    {
        let n = self.bytes.len();
        let mut bytes: Vec<u8> = Vec::new();
        let mut i: usize = 0;
        while i < n
            invariant
                i <= n,
                n == self.bytes@.len(),
                bytes@ == self.bytes@.subrange(0, i as int),
            decreases n - i,
        {
            bytes.push(self.bytes[i]);
            proof {
                assert(bytes@ =~= self.bytes@.subrange(0, i as int + 1));
            }
            i = i + 1;
        }
        proof {
            assert(bytes@ =~= self.bytes@);
        }
        TexPath { bytes }
    }
}

/// The index of the last occurrence of `c` in `s`, or -1 when `c` does not
/// occur.
pub open spec fn last_index(s: Seq<u8>, c: u8) -> int
    decreases s.len(),
{
    if s.len() == 0 {
        -1
    } else if s[s.len() - 1] == c {
        s.len() - 1
    } else {
        last_index(s.drop_last(), c)
    }
}

/// The index with `c` at it and none after is exactly `last_index`.
pub proof fn lemma_last_index_at(s: Seq<u8>, c: u8, i: int)
    requires
        0 <= i < s.len(),
        s[i] == c,
        forall|j: int| i < j < s.len() ==> s[j] != c,
    ensures
        last_index(s, c) == i,
    decreases s.len(),
{
    if i == s.len() - 1 {
    } else {
        assert(s.drop_last()[i] == s[i]);
        assert forall|j: int| i < j < s.drop_last().len() implies s.drop_last()[j] != c by {
            assert(s.drop_last()[j] == s[j]);
        }
        lemma_last_index_at(s.drop_last(), c, i);
    }
}

/// When `c` occurs nowhere in `s`, `last_index` is -1.
pub proof fn lemma_last_index_none(s: Seq<u8>, c: u8)
    requires
        forall|j: int| 0 <= j < s.len() ==> s[j] != c,
    ensures
        last_index(s, c) == -1,
    decreases s.len(),
{
    if s.len() == 0 {
    } else {
        assert forall|j: int| 0 <= j < s.drop_last().len() implies s.drop_last()[j] != c by {
            assert(s.drop_last()[j] == s[j]);
        }
        lemma_last_index_none(s.drop_last(), c);
    }
}

/// The final component of a path: the bytes after the last separator, or
/// the whole path when it has no separator.
pub open spec fn spec_file_name(p: Seq<u8>) -> Seq<u8> {
    p.subrange(last_index(p, PATH_SEP) + 1, p.len() as int)
}

/// The extension of a path: the bytes after the last dot of its file name,
/// provided that dot exists and is not the file name's first byte (a
/// leading dot marks a hidden file, not an extension). The extension may be
/// empty, as for a name that ends in a dot.
pub open spec fn spec_extension(p: Seq<u8>) -> Option<Seq<u8>> {
    let name = spec_file_name(p);
    let d = last_index(name, DOT);
    if d <= 0 {
        None
    } else {
        Some(name.subrange(d + 1, name.len() as int))
    }
}

/// `b` with an ASCII upper-case letter folded to lower case.
pub open spec fn ascii_lower(b: u8) -> u8 {
    if 65 <= b && b <= 90 {
        (b + 32) as u8
    } else {
        b
    }
}

/// `s` with every ASCII upper-case letter folded to lower case.
pub open spec fn lower_seq(s: Seq<u8>) -> Seq<u8> {
    s.map_values(|b: u8| ascii_lower(b))
}

/// Whether `needle` occurs as a contiguous run inside `hay`.
pub open spec fn contains_sub(hay: Seq<u8>, needle: Seq<u8>) -> bool {
    exists|i: int|
        0 <= i && i + needle.len() <= hay.len() && #[trigger] hay.subrange(i, i + needle.len())
            == needle
}

pub open spec fn fmt_png() -> Seq<u8> {
    seq![112u8, 110u8, 103u8]
}

pub open spec fn fmt_jpeg() -> Seq<u8> {
    seq![106u8, 112u8, 101u8, 103u8]
}

pub open spec fn fmt_jpg() -> Seq<u8> {
    seq![106u8, 112u8, 103u8]
}

/// Whether a path names one of the supported texture formats: its
/// extension exists and contains `png`, `jpeg` or `jpg`, compared ASCII
/// case-insensitively. The check is advisory: ingestion proceeds either
/// way.
pub open spec fn is_supported_format(p: Seq<u8>) -> bool {
    match spec_extension(p) {
        Some(e) => contains_sub(lower_seq(e), fmt_png()) || contains_sub(lower_seq(e), fmt_jpeg())
            || contains_sub(lower_seq(e), fmt_jpg()),
        None => false,
    }
}

/// Greatest index `i` with `lo <= i` and `v[i] == c`, scanning backward.
fn rfind_from(v: &Vec<u8>, lo: usize, c: u8) -> (r: Option<usize>)
    ensures
        match r {
            Some(i) => lo <= i < v@.len() && v@[i as int] == c && (forall|j: int|
                i < j < v@.len() ==> v@[j] != c),
            None => forall|j: int| lo <= j < v@.len() ==> v@[j] != c,
        },
{
    let mut i: usize = v.len();
    while i > lo
        invariant
            forall|j: int| i <= j < v@.len() ==> v@[j] != c,
            i <= v@.len() || i == lo,
        decreases i,
    {
        i = i - 1;
        if v[i] == c {
            return Some(i);
        }
    }
    None
}

/// The extension of `path`, copied into its own byte vector, or `None`
/// when the file name has none.
pub fn extension_of(path: &TexPath) -> (r: Option<Vec<u8>>)
    ensures
        match r {
            Some(e) => spec_extension(path@) == Some(e@),
            None => spec_extension(path@) is None,
        },
{
    let v = &path.bytes;
    let n = v.len();
    let name_start: usize = match rfind_from(v, 0, PATH_SEP) {
        Some(i) => {
            proof {
                lemma_last_index_at(v@, PATH_SEP, i as int);
            }
            i + 1
        },
        None => {
            proof {
                lemma_last_index_none(v@, PATH_SEP);
            }
            0
        },
    };
    let ghost name = spec_file_name(path@);
    proof {
        assert(name =~= v@.subrange(name_start as int, n as int));
    }
    match rfind_from(v, name_start, DOT) {
        None => {
            proof {
                assert forall|j: int| 0 <= j < name.len() implies name[j] != DOT by {
                    assert(name[j] == v@[name_start + j]);
                }
                lemma_last_index_none(name, DOT);
            }
            None
        },
        Some(q) => {
            proof {
                assert(name[q - name_start] == v@[q as int]);
                assert forall|j: int| q - name_start < j < name.len() implies name[j] != DOT by {
                    assert(name[j] == v@[name_start + j]);
                }
                lemma_last_index_at(name, DOT, q - name_start);
            }
            if q == name_start {
                None
            } else {
                let mut e: Vec<u8> = Vec::new();
                let mut i: usize = q + 1;
                while i < n
                    invariant
                        q + 1 <= i <= n,
                        n == v@.len(),
                        e@ == v@.subrange(q + 1, i as int),
                    decreases n - i,
                {
                    e.push(v[i]);
                    proof {
                        assert(e@ =~= v@.subrange(q + 1, i as int + 1));
                    }
                    i = i + 1;
                }
                proof {
                    let d = last_index(name, DOT);
                    assert(name.subrange(d + 1, name.len() as int) =~= e@);
                }
                Some(e)
            }
        },
    }
}

/// Whether the byte runs at offset `i` of `hay` equal `needle`.
fn match_at(hay: &Vec<u8>, needle: &Vec<u8>, i: usize) -> (r: bool)
    requires
        i + needle@.len() <= hay@.len(),
    ensures
        r == (hay@.subrange(i as int, i as int + needle@.len() as int) == needle@),
{
    let m = needle.len();
    let hlen = hay.len();
    let mut k: usize = 0;
    while k < m
        invariant
            k <= m,
            m == needle@.len(),
            hlen == hay@.len(),
            i + m <= hlen,
            forall|t: int| 0 <= t < k ==> hay@[i + t] == needle@[t],
        decreases m - k,
    {
        if hay[i + k] != needle[k] {
            proof {
                assert(hay@.subrange(i as int, i as int + m as int)[k as int] == hay@[i + k]);
            }
            return false;
        }
        k = k + 1;
    }
    proof {
        assert(hay@.subrange(i as int, i as int + m as int) =~= needle@);
    }
    true
}

/// Whether `needle` occurs anywhere inside `hay`.
fn contains_sub_exec(hay: &Vec<u8>, needle: &Vec<u8>) -> (r: bool)
    ensures
        r == contains_sub(hay@, needle@),
{
    let n = hay.len();
    let m = needle.len();
    if m > n {
        return false;
    }
    if m == 0 {
        proof {
            assert(hay@.subrange(0, 0 + needle@.len() as int) =~= needle@);
        }
        return true;
    }
    let mut i: usize = 0;
    while i <= n - m
        invariant
            1 <= m <= n,
            n == hay@.len(),
            m == needle@.len(),
            i <= n - m + 1,
            forall|j: int| 0 <= j < i ==> #[trigger] hay@.subrange(j, j + m) != needle@,
        decreases n - i,
    {
        if match_at(hay, needle, i) {
            return true;
        }
        i = i + 1;
    }
    false
}

fn ascii_lower_byte(b: u8) -> (r: u8)
    ensures
        r == ascii_lower(b),
{
    if b >= 65 && b <= 90 {
        b + 32
    } else {
        b
    }
}

/// A copy of `v` with every ASCII upper-case letter folded to lower case.
fn to_lower(v: &Vec<u8>) -> (r: Vec<u8>)
    ensures
        r@ == lower_seq(v@),
{
    let n = v.len();
    let mut r: Vec<u8> = Vec::new();
    let mut i: usize = 0;
    while i < n
        invariant
            i <= n,
            n == v@.len(),
            r@.len() == i,
            forall|j: int| 0 <= j < i ==> r@[j] == ascii_lower(v@[j]),
        decreases n - i,
    {
        r.push(ascii_lower_byte(v[i]));
        i = i + 1;
    }
    proof {
        assert(r@ =~= lower_seq(v@));
    }
    r
}

/// Whether the dropped path's extension marks a supported texture format:
/// `png`, `jpeg` or `jpg`, matched ASCII case-insensitively as a substring
/// of the extension.
pub fn is_supported_texture_path(path: &TexPath) -> (r: bool)
    ensures
        r == is_supported_format(path@),
{
    match extension_of(path) {
        None => false,
        Some(ext) => {
            let low = to_lower(&ext);
            let png: Vec<u8> = vec![112u8, 110u8, 103u8];
            let jpeg: Vec<u8> = vec![106u8, 112u8, 101u8, 103u8];
            let jpg: Vec<u8> = vec![106u8, 112u8, 103u8];
            proof {
                assert(png@ =~= fmt_png());
                assert(jpeg@ =~= fmt_jpeg());
                assert(jpg@ =~= fmt_jpg());
            }
            contains_sub_exec(&low, &png) || contains_sub_exec(&low, &jpeg) || contains_sub_exec(
                &low,
                &jpg,
            )
        },
    }
}

} // verus!
