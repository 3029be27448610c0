//! Lexical path operations (`Path::parent`, `Path::file_name`, `PathBuf::push`,
//! `Path::components`) on paths held as strings.
//!
//! On Windows only drive prefixes (`C:`) are recognised; UNC and verbatim (`\\?\`)
//! prefixes are read as ordinary components.

use vstd::prelude::*;

use crate::argv::PathStyle;
use crate::text::{chars_of, concat, owned, string_from_chars};

verus! {

pub open spec fn is_separator(c: char, style: PathStyle) -> bool {
    c == '/' || (style == PathStyle::Windows && c == '\\')
}

pub open spec fn is_ascii_letter(c: char) -> bool {
    ('a' <= c && c <= 'z') || ('A' <= c && c <= 'Z')
}

/// Length of the drive prefix (`C:`) that a Windows path starts with, else 0.
pub open spec fn prefix_len(s: Seq<char>, style: PathStyle) -> int {
    if style == PathStyle::Windows && s.len() >= 2 && s[1] == ':' && is_ascii_letter(s[0]) { 2 } else { 0 }
}

/// The path has a root: a separator right after its prefix.
pub open spec fn has_root(s: Seq<char>, style: PathStyle) -> bool {
    s.len() > prefix_len(s, style) && is_separator(s[prefix_len(s, style)], style)
}

/// The path starts (after its prefix) with a `.` component.
pub open spec fn has_cur_dir(s: Seq<char>, style: PathStyle) -> bool {
    let p = prefix_len(s, style);
    !has_root(s, style) && s.len() > p && s[p] == '.' && (s.len() == p + 1 || is_separator(s[p + 1], style))
}

/// Where the components after prefix, root and leading `.` start.
pub open spec fn body_start(s: Seq<char>, style: PathStyle) -> int {
    prefix_len(s, style) + (if has_root(s, style) { 1int } else { 0int }) + (if has_cur_dir(s, style) { 1int } else { 0int })
}

/// `s` without trailing separators and trailing `.` components, never cutting into the
/// first `lo` characters.
pub open spec fn trim_back(s: Seq<char>, lo: int, style: PathStyle) -> Seq<char>
    decreases s.len(),
{
    if s.len() <= lo || lo < 0 {
        s
    } else if is_separator(s.last(), style) {
        trim_back(s.drop_last(), lo, style)
    } else if s.last() == '.' && (s.len() - 1 == lo || is_separator(s[s.len() - 2], style)) {
        trim_back(s.drop_last(), lo, style)
    } else {
        s
    }
}

/// Index of the last separator at or after `lo`, or -1.
pub open spec fn last_separator(s: Seq<char>, lo: int, style: PathStyle) -> int
    decreases s.len(),
{
    if s.len() <= lo || lo < 0 {
        -1
    } else if is_separator(s.last(), style) {
        s.len() - 1
    } else {
        last_separator(s.drop_last(), lo, style)
    }
}

/// The last component's text.
pub open spec fn last_piece(s: Seq<char>, lo: int, style: PathStyle) -> Seq<char> {
    let k = last_separator(s, lo, style);
    if k < 0 { s.skip(lo) } else { s.skip(k + 1) }
}

/// `s` without its last component and the separator before it.
pub open spec fn before_last_piece(s: Seq<char>, lo: int, style: PathStyle) -> Seq<char> {
    let k = last_separator(s, lo, style);
    if k < 0 { s.take(lo) } else { s.take(k) }
}

/// `Path::parent`: the path without its final component, or `None` when it ends in a
/// root or prefix or is empty.
pub open spec fn spec_parent(s: Seq<char>, style: PathStyle) -> Option<Seq<char>> {
    let lo = body_start(s, style);
    let t = trim_back(s, lo, style);
    if t.len() > lo {
        Some(trim_back(before_last_piece(t, lo, style), lo, style))
    } else if has_root(s, style) || prefix_len(s, style) > 0 {
        None
    } else if has_cur_dir(s, style) {
        Some(Seq::empty())
    } else {
        None
    }
}

/// `Path::file_name`: the final component when it is a normal one.
pub open spec fn spec_file_name(s: Seq<char>, style: PathStyle) -> Option<Seq<char>> {
    let lo = body_start(s, style);
    let t = trim_back(s, lo, style);
    if t.len() > lo && last_piece(t, lo, style) != ".."@ {
        Some(last_piece(t, lo, style))
    } else {
        None
    }
}

/// `PathBuf::push` / `Path::join`: an absolute `name` (or, on Windows, one with a
/// prefix) replaces `base`; a rooted one keeps only `base`'s prefix; otherwise a
/// separator is added when `base` does not end in one.
pub open spec fn spec_join(base: Seq<char>, name: Seq<char>, style: PathStyle) -> Seq<char> {
    let sep = if style == PathStyle::Windows { '\\' } else { '/' };
    if prefix_len(name, style) > 0 || (style == PathStyle::Posix && has_root(name, style)) {
        name
    } else if has_root(name, style) {
        base.take(prefix_len(base, style)) + name
    } else if base.len() > 0 && !is_separator(base.last(), style)
        && !(prefix_len(base, style) > 0 && prefix_len(base, style) == base.len()) {
        base + seq![sep] + name
    } else {
        base + name
    }
}

/// The number of normal and `..` components after `lo`.
pub open spec fn piece_count(s: Seq<char>, lo: int, style: PathStyle) -> nat
    decreases s.len(),
{
    let t = trim_back(s, lo, style);
    if lo < 0 || t.len() <= lo || t.len() > s.len() {
        0
    } else {
        let r = before_last_piece(t, lo, style);
        if r.len() < t.len() { 1 + piece_count(r, lo, style) } else { 1 }
    }
}

/// `Path::components().count()`.
pub open spec fn spec_component_count(s: Seq<char>, style: PathStyle) -> nat {
    (if prefix_len(s, style) > 0 { 1nat } else { 0nat })
        + (if has_root(s, style) { 1nat } else { 0nat })
        + (if has_cur_dir(s, style) && prefix_len(s, style) == 0 { 1nat } else { 0nat })
        + piece_count(s, body_start(s, style), style)
}

pub proof fn lemma_trim_back_prefix(s: Seq<char>, lo: int, style: PathStyle)
    requires
        0 <= lo,
    ensures
        trim_back(s, lo, style).len() <= s.len(),
        trim_back(s, lo, style) == s.take(trim_back(s, lo, style).len() as int),
        lo <= s.len() ==> lo <= trim_back(s, lo, style).len(),
    decreases s.len(),
{
    if s.len() > lo {
        if is_separator(s.last(), style) || (s.last() == '.' && (s.len() - 1 == lo || is_separator(s[s.len() - 2], style))) {
            lemma_trim_back_prefix(s.drop_last(), lo, style);
            let t = trim_back(s.drop_last(), lo, style);
            assert(s.drop_last().take(t.len() as int) =~= s.take(t.len() as int));
        } else {
            assert(s.take(s.len() as int) =~= s);
        }
    } else {
        assert(s.take(s.len() as int) =~= s);
    }
}

pub proof fn lemma_last_separator(s: Seq<char>, lo: int, style: PathStyle)
    requires
        0 <= lo,
    ensures
        last_separator(s, lo, style) == -1 || (lo <= last_separator(s, lo, style) < s.len()
            && is_separator(s[last_separator(s, lo, style)], style)),
        forall|j: int| last_separator(s, lo, style) < j < s.len() && lo <= j ==> !is_separator(#[trigger] s[j], style),
    decreases s.len(),
{
    if s.len() > lo && !is_separator(s.last(), style) {
        lemma_last_separator(s.drop_last(), lo, style);
        let d = s.drop_last();
        assert forall|j: int| last_separator(s, lo, style) < j < s.len() && lo <= j implies !is_separator(#[trigger] s[j], style) by {
            if j < s.len() - 1 {
                assert(s[j] == d[j]);
            }
        }
    }
}

fn is_sep(c: char, style: PathStyle) -> (r: bool)
    ensures
        r == is_separator(c, style),
{
    c == '/' || (matches!(style, PathStyle::Windows) && c == '\\')
}

pub(crate) fn prefix_length(s: &Vec<char>, style: PathStyle) -> (n: usize)
    ensures
        n == prefix_len(s@, style),
{
    if matches!(style, PathStyle::Windows) && s.len() >= 2 && s[1] == ':'
        && (('a' <= s[0] && s[0] <= 'z') || ('A' <= s[0] && s[0] <= 'Z')) {
        2
    } else {
        0
    }
}

pub(crate) fn rooted(s: &Vec<char>, style: PathStyle) -> (r: bool)
    ensures
        r == has_root(s@, style),
{
    let p = prefix_length(s, style);
    s.len() > p && is_sep(s[p], style)
}

fn cur_dir(s: &Vec<char>, style: PathStyle) -> (r: bool)
    ensures
        r == has_cur_dir(s@, style),
{
    let p = prefix_length(s, style);
    !rooted(s, style) && s.len() > p && s[p] == '.' && (s.len() == p + 1 || is_sep(s[p + 1], style))
}

fn body_start_of(s: &Vec<char>, style: PathStyle) -> (n: usize)
    ensures
        n == body_start(s@, style),
        n <= s@.len(),
{
    let p = prefix_length(s, style);
    let r: usize = if rooted(s, style) { 1 } else { 0 };
    let c: usize = if cur_dir(s, style) { 1 } else { 0 };
    p + r + c
}

/// The end of `trim_back(s[..end], lo)`.
fn trim_back_end(s: &Vec<char>, lo: usize, end: usize, style: PathStyle) -> (n: usize)
    requires
        lo <= end <= s@.len(),
    ensures
        lo <= n <= end,
        trim_back(s@.take(end as int), lo as int, style) == s@.take(n as int),
{
    let mut e = end;
    while e > lo && (is_sep(s[e - 1], style) || (s[e - 1] == '.' && (e - 1 == lo || is_sep(s[e - 2], style))))
        invariant
            lo <= e <= end <= s@.len(),
            trim_back(s@.take(end as int), lo as int, style) == trim_back(s@.take(e as int), lo as int, style),
        decreases e,
    {
        assert(s@.take(e as int).drop_last() =~= s@.take(e - 1));
        e -= 1;
    }
    e
}

/// The index of the last separator in `s[lo..end]`.
fn last_separator_in(s: &Vec<char>, lo: usize, end: usize, style: PathStyle) -> (k: Option<usize>)
    requires
        lo <= end <= s@.len(),
    ensures
        match k {
            Some(k) => last_separator(s@.take(end as int), lo as int, style) == k && lo <= k < end,
            None => last_separator(s@.take(end as int), lo as int, style) == -1,
        },
{
    let mut e = end;
    while e > lo && !is_sep(s[e - 1], style)
        invariant
            lo <= e <= end <= s@.len(),
            last_separator(s@.take(end as int), lo as int, style) == last_separator(s@.take(e as int), lo as int, style),
        decreases e,
    {
        assert(s@.take(e as int).drop_last() =~= s@.take(e - 1));
        e -= 1;
    }
    if e > lo { Some(e - 1) } else { None }
}

/// `Path::parent` of `path`.
pub fn parent(path: &str, style: PathStyle) -> (result: Option<String>)
    ensures
        match (result, spec_parent(path@, style)) {
            (Some(p), Some(q)) => p@ == q,
            (None, None) => true,
            _ => false,
        },
{
    let s = chars_of(path);
    let lo = body_start_of(&s, style);
    assert(s@.take(s@.len() as int) =~= s@);
    let t = trim_back_end(&s, lo, s.len(), style);
    if t > lo {
        let r = match last_separator_in(&s, lo, t, style) {
            Some(k) => k,
            None => lo,
        };
        assert(before_last_piece(s@.take(t as int), lo as int, style) =~= s@.take(r as int));
        let e = trim_back_end(&s, lo, r, style);
        Some(string_from_chars(&s, 0, e))
    } else if rooted(&s, style) || prefix_length(&s, style) > 0 {
        None
    } else if cur_dir(&s, style) {
        Some(String::new())
    } else {
        None
    }
}

/// `Path::file_name` of `path`.
pub fn file_name(path: &str, style: PathStyle) -> (result: Option<String>)
    ensures
        match (result, spec_file_name(path@, style)) {
            (Some(p), Some(q)) => p@ == q,
            (None, None) => true,
            _ => false,
        },
{
    let s = chars_of(path);
    let lo = body_start_of(&s, style);
    assert(s@.take(s@.len() as int) =~= s@);
    let t = trim_back_end(&s, lo, s.len(), style);
    if t > lo {
        let start = match last_separator_in(&s, lo, t, style) {
            Some(k) => k + 1,
            None => lo,
        };
        assert(last_piece(s@.take(t as int), lo as int, style) =~= s@.subrange(start as int, t as int));
        let piece = string_from_chars(&s, start, t);
        if t - start == 2 && s[start] == '.' && s[start + 1] == '.' {
            assert(piece@ =~= ".."@) by {
                reveal_strlit("..");
            }
            None
        } else {
            proof {
                reveal_strlit("..");
                if piece@ == ".."@ {
                    assert(piece@[0] == '.' && piece@[1] == '.');
                }
            }
            Some(piece)
        }
    } else {
        None
    }
}

/// `base` joined with `name`, as `Path::join` does it.
pub fn join(base: &str, name: &str, style: PathStyle) -> (result: String)
    ensures
        result@ == spec_join(base@, name@, style),
{
    let b = chars_of(base);
    let n = chars_of(name);
    let np = prefix_length(&n, style);
    if np > 0 || (matches!(style, PathStyle::Posix) && rooted(&n, style)) {
        return owned(name);
    }
    let bp = prefix_length(&b, style);
    if rooted(&n, style) {
        let mut r = string_from_chars(&b, 0, bp);
        r.append(name);
        assert(b@.subrange(0, bp as int) =~= base@.take(bp as int));
        return r;
    }
    if b.len() > 0 && !is_sep(b[b.len() - 1], style) && !(bp > 0 && bp == b.len()) {
        let mut r = owned(base);
        let sep = if matches!(style, PathStyle::Windows) { '\\' } else { '/' };
        r.push(sep);
        r.append(name);
        r
    } else {
        concat(base, name)
    }
}

/// The number of components of `path`, as `Path::components` yields them.
pub fn component_count(path: &str, style: PathStyle) -> (count: usize)
    ensures
        count == spec_component_count(path@, style),
{
    let s = chars_of(path);
    let lo = body_start_of(&s, style);
    let total = s.len();
    let mut end = total;
    let mut count: usize = 0;
    assert(s@.take(s@.len() as int) =~= s@);
    while end > lo
        invariant
            lo <= end <= s@.len(),
            total == s@.len(),
            s@ == path@,
            lo == body_start(s@, style),
            count <= s@.len() - end,
            piece_count(s@, lo as int, style) == count + piece_count(s@.take(end as int), lo as int, style),
        ensures
            piece_count(s@, lo as int, style) == count,
        decreases end,
    {
        let t = trim_back_end(&s, lo, end, style);
        proof {
            lemma_trim_back_prefix(s@.take(end as int), lo as int, style);
        }
        if t <= lo {
            assert(piece_count(s@.take(end as int), lo as int, style) == 0);
            break;
        }
        let r = match last_separator_in(&s, lo, t, style) {
            Some(k) => k,
            None => lo,
        };
        assert(before_last_piece(s@.take(t as int), lo as int, style) =~= s@.take(r as int));
        assert(piece_count(s@.take(end as int), lo as int, style) == 1 + piece_count(s@.take(r as int), lo as int, style));
        count += 1;
        end = r;
    }
    let p: usize = if prefix_length(&s, style) > 0 { 1 } else { 0 };
    let r: usize = if rooted(&s, style) { 1 } else { 0 };
    let c: usize = if cur_dir(&s, style) && prefix_length(&s, style) == 0 { 1 } else { 0 };
    count + p + r + c
}

/// A component of a path, as `std::path::Component` names them.
pub enum PathComponent {
    Prefix(Seq<char>),
    RootDir,
    CurDir,
    ParentDir,
    Normal(Seq<char>),
}

/// The normal and `..` components after `lo`, in order.
pub open spec fn body_components(s: Seq<char>, lo: int, style: PathStyle) -> Seq<PathComponent>
    decreases s.len(),
{
    let t = trim_back(s, lo, style);
    if lo < 0 || t.len() <= lo || t.len() > s.len() {
        Seq::empty()
    } else {
        let r = before_last_piece(t, lo, style);
        let p = last_piece(t, lo, style);
        let c = if p == ".."@ { PathComponent::ParentDir } else { PathComponent::Normal(p) };
        if r.len() < t.len() { body_components(r, lo, style).push(c) } else { seq![c] }
    }
}

/// `Path::components`: prefix, root, a leading `.` (when there is no prefix), then the
/// normal and `..` components; empty and other `.` components are skipped.
pub open spec fn spec_components(s: Seq<char>, style: PathStyle) -> Seq<PathComponent> {
    (if prefix_len(s, style) > 0 { seq![PathComponent::Prefix(s.take(prefix_len(s, style)))] } else { Seq::empty() })
        + (if has_root(s, style) { seq![PathComponent::RootDir] } else { Seq::empty() })
        + (if has_cur_dir(s, style) && prefix_len(s, style) == 0 { seq![PathComponent::CurDir] } else { Seq::empty() })
        + body_components(s, body_start(s, style), style)
}

/// A component of a path.
pub enum Component {
    Prefix(String),
    RootDir,
    CurDir,
    ParentDir,
    Normal(String),
}

impl View for Component {
    type V = PathComponent;

    open spec fn view(&self) -> PathComponent {
        match self {
            Component::Prefix(p) => PathComponent::Prefix(p@),
            Component::RootDir => PathComponent::RootDir,
            Component::CurDir => PathComponent::CurDir,
            Component::ParentDir => PathComponent::ParentDir,
            Component::Normal(p) => PathComponent::Normal(p@),
        }
    }
}

pub open spec fn component_views(v: Seq<Component>) -> Seq<PathComponent> {
    v.map_values(|c: Component| c@)
}

fn body_components_of(s: &Vec<char>, lo: usize, style: PathStyle) -> (result: Vec<Component>)
    requires
        lo <= s@.len(),
    ensures
        component_views(result@) == body_components(s@, lo as int, style),
{
    let mut end = s.len();
    let mut rev: Vec<Component> = Vec::new();
    assert(s@.take(s@.len() as int) =~= s@);
    while end > lo
        invariant
            lo <= end <= s@.len(),
            body_components(s@, lo as int, style)
                == body_components(s@.take(end as int), lo as int, style) + component_views(rev@).reverse(),
        ensures
            body_components(s@, lo as int, style) == component_views(rev@).reverse(),
        decreases end,
    {
        let t = trim_back_end(s, lo, end, style);
        proof {
            lemma_trim_back_prefix(s@.take(end as int), lo as int, style);
        }
        if t <= lo {
            assert(body_components(s@.take(end as int), lo as int, style) =~= Seq::<PathComponent>::empty());
            assert(body_components(s@, lo as int, style) =~= component_views(rev@).reverse());
            break;
        }
        let start = match last_separator_in(s, lo, t, style) {
            Some(k) => k + 1,
            None => lo,
        };
        let r = if start > lo { start - 1 } else { lo };
        assert(before_last_piece(s@.take(t as int), lo as int, style) =~= s@.take(r as int));
        assert(last_piece(s@.take(t as int), lo as int, style) =~= s@.subrange(start as int, t as int));
        let piece = string_from_chars(s, start, t);
        let c = if t - start == 2 && s[start] == '.' && s[start + 1] == '.' {
            proof {
                reveal_strlit("..");
                assert(piece@ =~= ".."@);
            }
            Component::ParentDir
        } else {
            proof {
                reveal_strlit("..");
                if piece@ == ".."@ {
                    assert(piece@[0] == '.' && piece@[1] == '.');
                }
            }
            Component::Normal(piece)
        };
        let ghost cv = c@;
        let ghost before = component_views(rev@);
        rev.push(c);
        assert(component_views(rev@) =~= before.push(cv));
        assert(component_views(rev@).reverse() =~= seq![cv] + before.reverse());
        proof {
            if r < t {
                assert(body_components(s@.take(end as int), lo as int, style)
                    == body_components(s@.take(r as int), lo as int, style).push(cv));
            } else {
                assert(r == lo);
                assert(body_components(s@.take(r as int), lo as int, style) =~= Seq::<PathComponent>::empty());
            }
        }
        end = r;
    }
    let mut result: Vec<Component> = Vec::new();
    let mut i = rev.len();
    while i > 0
        invariant
            i <= rev@.len(),
            component_views(result@) == component_views(rev@).reverse().take(rev@.len() - i),
        decreases i,
    {
        i -= 1;
        let c = match &rev[i] {
            Component::Prefix(p) => Component::Prefix(owned(p.as_str())),
            Component::RootDir => Component::RootDir,
            Component::CurDir => Component::CurDir,
            Component::ParentDir => Component::ParentDir,
            Component::Normal(p) => Component::Normal(owned(p.as_str())),
        };
        let ghost old_result = result@;
        let ghost cv = c@;
        assert(cv == rev@[i as int]@);
        result.push(c);
        assert(result@ == old_result.push(c));
        assert(component_views(result@) =~= component_views(old_result).push(cv));
        assert(component_views(rev@).reverse()[rev@.len() - i - 1] == cv);
        assert(component_views(result@) =~= component_views(rev@).reverse().take(rev@.len() - i));
    }
    assert(component_views(rev@).reverse().take(rev@.len() as int) =~= component_views(rev@).reverse());
    result
}

/// The components of `path`.
pub fn components(path: &str, style: PathStyle) -> (result: Vec<Component>)
    ensures
        component_views(result@) == spec_components(path@, style),
{
    let s = chars_of(path);
    let mut result: Vec<Component> = Vec::new();
    let p = prefix_length(&s, style);
    if p > 0 {
        result.push(Component::Prefix(string_from_chars(&s, 0, p)));
    }
    if rooted(&s, style) {
        result.push(Component::RootDir);
    }
    if cur_dir(&s, style) && p == 0 {
        result.push(Component::CurDir);
    }
    let ghost head = component_views(result@);
    assert(head =~= (if prefix_len(s@, style) > 0 { seq![PathComponent::Prefix(s@.take(prefix_len(s@, style)))] } else { Seq::empty() })
        + (if has_root(s@, style) { seq![PathComponent::RootDir] } else { Seq::empty() })
        + (if has_cur_dir(s@, style) && prefix_len(s@, style) == 0 { seq![PathComponent::CurDir] } else { Seq::empty() }));
    let lo = body_start_of(&s, style);
    let body = body_components_of(&s, lo, style);
    let mut i: usize = 0;
    while i < body.len()
        invariant
            i <= body@.len(),
            component_views(result@) == head + component_views(body@).take(i as int),
        decreases body.len() - i,
    {
        let c = match &body[i] {
            Component::Prefix(p) => Component::Prefix(owned(p.as_str())),
            Component::RootDir => Component::RootDir,
            Component::CurDir => Component::CurDir,
            Component::ParentDir => Component::ParentDir,
            Component::Normal(p) => Component::Normal(owned(p.as_str())),
        };
        let ghost old_result = result@;
        let ghost cv = c@;
        assert(cv == body@[i as int]@);
        result.push(c);
        assert(component_views(result@) =~= component_views(old_result).push(cv));
        assert(component_views(result@) =~= head + component_views(body@).take(i + 1));
        i += 1;
    }
    assert(component_views(body@).take(body@.len() as int) =~= component_views(body@));
    result
}

fn same_component(a: &Component, b: &Component) -> (r: bool)
    ensures
        r == (a@ == b@),
{
    match (a, b) {
        (Component::Prefix(x), Component::Prefix(y)) => crate::text::same_text(x.as_str(), y.as_str()),
        (Component::RootDir, Component::RootDir) => true,
        (Component::CurDir, Component::CurDir) => true,
        (Component::ParentDir, Component::ParentDir) => true,
        (Component::Normal(x), Component::Normal(y)) => crate::text::same_text(x.as_str(), y.as_str()),
        _ => false,
    }
}

/// Whether the components of `a` start with those of `b` (`Path::starts_with`).
pub open spec fn spec_path_starts_with(a: Seq<char>, b: Seq<char>, style: PathStyle) -> bool {
    let x = spec_components(a, style);
    let y = spec_components(b, style);
    y.len() <= x.len() && x.take(y.len() as int) == y
}

/// `Path` equality: the same components.
pub open spec fn spec_path_eq(a: Seq<char>, b: Seq<char>, style: PathStyle) -> bool {
    spec_components(a, style) == spec_components(b, style)
}

/// Whether `path` starts with the components of `base`.
pub fn path_starts_with(path: &str, base: &str, style: PathStyle) -> (r: bool)
    ensures
        r == spec_path_starts_with(path@, base@, style),
{
    let x = components(path, style);
    let y = components(base, style);
    if y.len() > x.len() {
        return false;
    }
    let mut i: usize = 0;
    while i < y.len()
        invariant
            y@.len() <= x@.len(),
            i <= y@.len(),
            component_views(x@) == spec_components(path@, style),
            component_views(y@) == spec_components(base@, style),
            forall|j: int| 0 <= j < i ==> x@[j]@ == y@[j]@,
        decreases y.len() - i,
    {
        if !same_component(&x[i], &y[i]) {
            assert(component_views(x@).take(y@.len() as int)[i as int] != component_views(y@)[i as int]);
            return false;
        }
        i += 1;
    }
    assert(component_views(x@).take(y@.len() as int) =~= component_views(y@));
    true
}

/// Whether two paths have the same components.
pub fn path_eq(a: &str, b: &str, style: PathStyle) -> (r: bool)
    ensures
        r == spec_path_eq(a@, b@, style),
{
    let x = components(a, style);
    let y = components(b, style);
    if x.len() != y.len() {
        assert(component_views(x@).len() != component_views(y@).len());
        return false;
    }
    let mut i: usize = 0;
    while i < y.len()
        invariant
            y@.len() == x@.len(),
            i <= y@.len(),
            component_views(x@) == spec_components(a@, style),
            component_views(y@) == spec_components(b@, style),
            forall|j: int| 0 <= j < i ==> x@[j]@ == y@[j]@,
        decreases y.len() - i,
    {
        if !same_component(&x[i], &y[i]) {
            assert(component_views(x@)[i as int] != component_views(y@)[i as int]);
            return false;
        }
        i += 1;
    }
    assert(component_views(x@) =~= component_views(y@));
    true
}

} // verus!
