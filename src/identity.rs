use vstd::prelude::*;

verus! {

/// The characters after the last `/` of `p` (all of `p` when it holds none).
pub open spec fn trailing_segment(p: Seq<char>) -> Seq<char>
    decreases p.len(),
{
    if p.len() == 0 {
        p
    } else if p.last() == '/' {
        Seq::empty()
    } else {
        trailing_segment(p.drop_last()).push(p.last())
    }
}

/// The final component of a path, as `Path::file_name` reads it: empty and `.`
/// segments are passed over, and a path that ends in `..` or has no normal
/// segment has none.
pub open spec fn final_component(p: Seq<char>) -> Option<Seq<char>>
    decreases p.len(),
{
    let seg = trailing_segment(p);
    if seg.len() == 0 || seg == seq!['.'] {
        if seg.len() < p.len() {
            final_component(p.subrange(0, p.len() - seg.len() - 1))
        } else {
            None
        }
    } else if seg == seq!['.', '.'] {
        None
    } else {
        Some(seg)
    }
}

/// Index of the last `c` in `s`, or -1.
pub open spec fn last_index_of(s: Seq<char>, c: char) -> int
    decreases s.len(),
{
    if s.len() == 0 {
        -1
    } else if s.last() == c {
        s.len() - 1
    } else {
        last_index_of(s.drop_last(), c)
    }
}

/// A file name without its extension: everything before the last `.`, unless
/// that dot opens the name.
pub open spec fn stem_of(name: Seq<char>) -> Seq<char> {
    let d = last_index_of(name, '.');
    if d <= 0 {
        name
    } else {
        name.subrange(0, d)
    }
}

/// The stem of the final component of a path, if it has one.
pub open spec fn file_stem_of(p: Seq<char>) -> Option<Seq<char>> {
    match final_component(p) {
        Some(name) => Some(stem_of(name)),
        None => None,
    }
}

pub open spec fn is_alphanumeric(c: char) -> bool {
    ('A' <= c && c <= 'Z') || ('a' <= c && c <= 'z') || ('0' <= c && c <= '9')
}

/// Length of a freshly generated container id.
pub const ID_LEN: usize = 16;

proof fn lemma_trailing_segment(p: Seq<char>, j: int)
    requires
        0 <= j <= p.len(),
        forall|k: int| j <= k < p.len() ==> p[k] != '/',
        j == 0 || p[j - 1] == '/',
    ensures
        trailing_segment(p) == p.subrange(j, p.len() as int),
    decreases p.len() - j,
{
    if p.len() == j {
        if j > 0 {
            assert(p.last() == '/');
        }
        assert(p.subrange(j, p.len() as int) =~= Seq::<char>::empty());
    } else {
        let q = p.drop_last();
        lemma_trailing_segment(q, j);
        assert(p.subrange(j, p.len() as int) =~= q.subrange(j, q.len() as int).push(p.last()));
    }
}

proof fn lemma_last_index_of(s: Seq<char>, c: char, j: int)
    requires
        0 <= j <= s.len(),
        forall|k: int| j <= k < s.len() ==> s[k] != c,
        j == 0 || s[j - 1] == c,
    ensures
        last_index_of(s, c) == j - 1,
    decreases s.len() - j,
{
    if s.len() > j {
        lemma_last_index_of(s.drop_last(), c, j);
    }
}

/// Scans `s` backwards from `end` (exclusive) down to `lo` for `c`; returns one past
/// the position found, or `lo` when there is none.
fn rfind_from(s: &str, c: char, lo: usize, end: usize) -> (r: usize)
    requires
        lo <= end <= s@.len(),
    ensures
        lo <= r <= end,
        forall|k: int| r <= k < end ==> s@[k] != c,
        r > lo ==> s@[r - 1] == c,
{
    let mut i: usize = end;
    while i > lo
        invariant
            lo <= i <= end,
            end <= s@.len(),
            forall|k: int| i <= k < end ==> s@[k] != c,
        decreases i,
    {
        if s.get_char(i - 1) == c {
            return i;
        }
        i = i - 1;
    }
    i
}

/// The stem of the final component of `path` (file-stem semantics: the last
/// normal component with its extension removed), or `None` when the path has
/// no final component (empty, `/`, `.` or ending in `..`).
pub fn file_stem(path: &str) -> (r: Option<String>)
    ensures
        match r {
            Some(s) => file_stem_of(path@) == Some(s@),
            None => file_stem_of(path@).is_none(),
        },
{
    let n = path.unicode_len();
    let mut end: usize = n;
    assert(path@.subrange(0, n as int) =~= path@);
    loop
        invariant
            end <= n,
            n == path@.len(),
            final_component(path@.subrange(0, end as int)) == final_component(path@),
        decreases end,
    {
        let ghost p = path@.subrange(0, end as int);
        let start = rfind_from(path, '/', 0, end);
        proof {
            lemma_trailing_segment(p, start as int);
            assert(p.subrange(start as int, p.len() as int) =~= path@.subrange(start as int, end as int));
        }
        let ghost seg = path@.subrange(start as int, end as int);
        let len = end - start;
        if len == 0 || (len == 1 && path.get_char(start) == '.') {
            proof {
                if len == 1 {
                    assert(seg =~= seq!['.']);
                }
            }
            if start == 0 {
                return None;
            }
            proof {
                assert(p.subrange(0, p.len() - seg.len() - 1) =~= path@.subrange(0, start - 1));
            }
            end = start - 1;
        } else {
            proof {
                if len == 1 {
                    assert(seg[0] != '.');
                    assert(seg != seq!['.']);
                }
            }
            if len == 2 && path.get_char(start) == '.' && path.get_char(start + 1) == '.' {
                proof {
                    assert(seg =~= seq!['.', '.']);
                }
                return None;
            }
            proof {
                if len == 2 {
                    assert(seg[0] != '.' || seg[1] != '.');
                    assert(seg != seq!['.', '.']);
                }
                assert(final_component(path@) == Some(seg));
            }
            let r = rfind_from(path, '.', start, end);
            proof {
                assert forall|k: int| r - start <= k < seg.len() implies seg[k] != '.' by {
                    assert(seg[k] == path@[start + k]);
                }
                lemma_last_index_of(seg, '.', r - start);
            }
            if r <= start + 1 {
                return Some(path.substring_char(start, end).to_owned());
            } else {
                proof {
                    assert(seg.subrange(0, r - 1 - start) =~= path@.subrange(start as int, r - 1));
                }
                return Some(path.substring_char(start, r - 1).to_owned());
            }
        }
    }
}

/// A path made of a directory part (empty or ending in `/`) and a name
/// `stem.ext`, where the extension holds no `.` and neither part holds a `/`,
/// has `stem` as its file stem, however deep the directory and whatever the
/// extension.
pub proof fn lemma_file_stem_of_dir_and_name(dir: Seq<char>, stem: Seq<char>, ext: Seq<char>)
    requires
        dir.len() == 0 || dir.last() == '/',
        stem.len() > 0,
        !stem.contains('/'),
        !ext.contains('/'),
        !ext.contains('.'),
        stem + seq!['.'] + ext != seq!['.', '.'],
    ensures
        file_stem_of(dir + stem + seq!['.'] + ext) == Some(stem),
{
    let name = stem + seq!['.'] + ext;
    let p = dir + name;
    assert(p =~= dir + stem + seq!['.'] + ext);
    assert forall|k: int| dir.len() <= k < p.len() implies p[k] != '/' by {
        let i = k - dir.len();
        assert(p[k] == name[i]);
        if i < stem.len() {
            assert(name[i] == stem[i]);
        } else if i > stem.len() {
            assert(name[i] == ext[i - stem.len() - 1]);
        }
    }
    lemma_trailing_segment(p, dir.len() as int);
    assert(p.subrange(dir.len() as int, p.len() as int) =~= name);
    assert(name.len() >= 2);
    assert(name != seq!['.']);
    assert(final_component(p) == Some(name));
    assert forall|k: int| stem.len() + 1 <= k < name.len() implies name[k] != '.' by {
        assert(name[k] == ext[k - stem.len() - 1]);
    }
    lemma_last_index_of(name, '.', stem.len() + 1 as int);
    assert(name.subrange(0, stem.len() as int) =~= stem);
}

/// Relies on rand 0.8's `Alphanumeric` distribution sampled from `thread_rng`:
/// every byte it yields is taken from `A-Z`, `a-z` and `0-9`.
#[verifier::external_body]
fn random_alphanumeric() -> (r: char)
    ensures
        is_alphanumeric(r),
{
    rand::Rng::sample(&mut rand::thread_rng(), rand::distributions::Alphanumeric) as char
}

/// Relies on `String::push`: appends one character.
#[verifier::external_body]
fn push_char(s: &mut String, c: char)
    ensures
        final(s)@ == old(s)@.push(c),
{
    s.push(c)
}

/// A fresh container id: `ID_LEN` random ASCII letters and digits.
pub fn random_id() -> (r: String)
    ensures
        r@.len() == ID_LEN,
        forall|i: int| 0 <= i < r@.len() ==> is_alphanumeric(#[trigger] r@[i]),
{
    let mut id = String::new();
    let mut i: usize = 0;
    while i < ID_LEN
        invariant
            i <= ID_LEN,
            id@.len() == i,
            forall|k: int| 0 <= k < id@.len() ==> is_alphanumeric(#[trigger] id@[k]),
        decreases ID_LEN - i,
    {
        let c = random_alphanumeric();
        push_char(&mut id, c);
        i = i + 1;
    }
    id
}

/// The id of a container: the file stem of `path` when one is given, else a
/// fresh random id. `None` when the given path has no file stem.
pub fn resolve_id(path: Option<&str>) -> (r: Option<String>)
    ensures
        match path {
            Some(p) => match r {
                Some(id) => file_stem_of(p@) == Some(id@),
                None => file_stem_of(p@).is_none(),
            },
            None => r matches Some(id) && id@.len() == ID_LEN && (forall|i: int|
                0 <= i < id@.len() ==> is_alphanumeric(#[trigger] id@[i])),
        },
{
    match path {
        Some(p) => file_stem(p),
        None => Some(random_id()),
    }
}

} // verus!
