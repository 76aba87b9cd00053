use vstd::prelude::*;

use crate::text::{chars_of, push_str, string_from_chars};

verus! {

// ---------------------------------------------------------------------------
// Text operations on character sequences
// ---------------------------------------------------------------------------

/// Unicode White_Space, as `char::is_whitespace` tests it.
pub open spec fn is_whitespace(c: char) -> bool {
    let n = c as u32;
    (0x09 <= n <= 0x0D) || n == 0x20 || n == 0x85 || n == 0xA0 || n == 0x1680 || (0x2000 <= n
        <= 0x200A) || n == 0x2028 || n == 0x2029 || n == 0x202F || n == 0x205F || n == 0x3000
}

pub open spec fn trim_start(s: Seq<char>) -> Seq<char>
    decreases s.len(),
{
    if s.len() > 0 && is_whitespace(s[0]) {
        trim_start(s.drop_first())
    } else {
        s
    }
}

pub open spec fn trim_end(s: Seq<char>) -> Seq<char>
    decreases s.len(),
{
    if s.len() > 0 && is_whitespace(s.last()) {
        trim_end(s.drop_last())
    } else {
        s
    }
}

/// `s` without leading and trailing whitespace.
pub open spec fn trim(s: Seq<char>) -> Seq<char> {
    trim_end(trim_start(s))
}

pub open spec fn strip_prefix(s: Seq<char>, prefix: Seq<char>) -> Option<Seq<char>> {
    if prefix.is_prefix_of(s) {
        Some(s.skip(prefix.len() as int))
    } else {
        None
    }
}

pub open spec fn strip_suffix(s: Seq<char>, suffix: Seq<char>) -> Option<Seq<char>> {
    if suffix.len() <= s.len() && s.skip(s.len() - suffix.len()) == suffix {
        Some(s.take(s.len() - suffix.len()))
    } else {
        None
    }
}

/// Whether `needle` occurs in `s`.
pub open spec fn contains_seq(s: Seq<char>, needle: Seq<char>) -> bool {
    exists|k: int| 0 <= k && k + needle.len() <= s.len() && #[trigger] s.subrange(k, k + needle.len()) == needle
}

/// Adds `c` to the front of the first part.
pub open spec fn prepend_first(c: Seq<char>, parts: Seq<Seq<char>>) -> Seq<Seq<char>> {
    parts.update(0, c + parts[0])
}

/// The parts of `s` between the occurrences of `sep`, found from the left
/// without overlap (as `str::split` with a string pattern).
pub open spec fn split(s: Seq<char>, sep: Seq<char>) -> Seq<Seq<char>>
    decreases s.len(),
{
    if s.len() == 0 {
        seq![Seq::empty()]
    } else if sep.len() > 0 && sep.is_prefix_of(s) {
        seq![Seq::empty()] + split(s.skip(sep.len() as int), sep)
    } else {
        prepend_first(seq![s[0]], split(s.drop_first(), sep))
    }
}

/// The items joined with `sep` between them.
pub open spec fn join(items: Seq<Seq<char>>, sep: Seq<char>) -> Seq<char>
    decreases items.len(),
{
    if items.len() == 0 {
        Seq::empty()
    } else if items.len() == 1 {
        items[0]
    } else {
        join(items.drop_last(), sep) + sep + items.last()
    }
}

pub proof fn lemma_split_nonempty(s: Seq<char>, sep: Seq<char>)
    ensures
        split(s, sep).len() >= 1,
    decreases s.len(),
{
    if s.len() == 0 {
    } else if sep.len() > 0 && sep.is_prefix_of(s) {
        lemma_split_nonempty(s.skip(sep.len() as int), sep);
    } else {
        lemma_split_nonempty(s.drop_first(), sep);
    }
}

// ---------------------------------------------------------------------------
// The GNOME input-source list
// ---------------------------------------------------------------------------

/// One source of the list after the parts are split apart: trimmed, dropped
/// when empty, and closed with `)` where the split took it away.
pub open spec fn source_item(part: Seq<char>) -> Option<Seq<char>> {
    let p = trim(part);
    if p.len() == 0 {
        None
    } else if p.last() == ')' {
        Some(p)
    } else {
        Some(p.push(')'))
    }
}

pub open spec fn source_items_of_parts(parts: Seq<Seq<char>>) -> Seq<Seq<char>>
    decreases parts.len(),
{
    if parts.len() == 0 {
        Seq::empty()
    } else {
        let rest = source_items_of_parts(parts.drop_last());
        match source_item(parts.last()) {
            Some(item) => rest.push(item),
            None => rest,
        }
    }
}

/// The inside of a GVariant list such as `@a(ss) [('xkb', 'us'), ('ibus', 'korean')]`:
/// the optional type annotation and the brackets are removed.
pub open spec fn list_inner(current: Seq<char>) -> Seq<char> {
    let trimmed = trim(current);
    let without_type = trim(
        match strip_prefix(trimmed, "@a(ss)"@) {
            Some(rest) => rest,
            None => trimmed,
        },
    );
    let unbracketed = match strip_prefix(without_type, "["@) {
        Some(rest) => match strip_suffix(rest, "]"@) {
            Some(inner) => Some(inner),
            None => None,
        },
        None => None,
    };
    trim(
        match unbracketed {
            Some(inner) => inner,
            None => without_type,
        },
    )
}

/// The sources of a GNOME input-source list, each as written, e.g. `('xkb', 'us')`.
pub open spec fn spec_source_items(current: Seq<char>) -> Seq<Seq<char>> {
    let inner = list_inner(current);
    if inner.len() == 0 {
        Seq::empty()
    } else {
        source_items_of_parts(split(inner, "),"@))
    }
}

/// The list written back: `[]`, or the sources joined with `, ` in brackets.
pub open spec fn spec_source_list(items: Seq<Seq<char>>) -> Seq<char> {
    if items.len() == 0 {
        "[]"@
    } else {
        "["@ + join(items, ", "@) + "]"@
    }
}

/// How the engine is written in the source list.
pub open spec fn ibus_source(engine: Seq<char>) -> Seq<char> {
    "('ibus', '"@ + engine + "')"@
}

/// The list with the engine's source added at the end, unless it is there.
pub open spec fn spec_append_ibus_source(current: Seq<char>, engine: Seq<char>) -> Seq<char> {
    let items = spec_source_items(current);
    if items.contains(ibus_source(engine)) {
        spec_source_list(items)
    } else {
        spec_source_list(items.push(ibus_source(engine)))
    }
}

/// Whether a source does not mention the engine's source.
pub open spec fn not_mentioning(engine: Seq<char>) -> spec_fn(Seq<char>) -> bool {
    |item: Seq<char>| !contains_seq(item, ibus_source(engine))
}

/// The list without the sources that mention the engine's source.
pub open spec fn spec_remove_ibus_source(current: Seq<char>, engine: Seq<char>) -> Seq<char> {
    spec_source_list(spec_source_items(current).filter(not_mentioning(engine)))
}

/// The position of the first source that mentions the engine's source.
pub open spec fn spec_source_index(current: Seq<char>, engine: Seq<char>) -> Option<int> {
    let items = spec_source_items(current);
    if exists|i: int| 0 <= i < items.len() && contains_seq(items[i], ibus_source(engine)) {
        Some(
            choose|i: int|
                0 <= i < items.len() && contains_seq(items[i], ibus_source(engine)) && forall|j: int|
                    0 <= j < i ==> !contains_seq(items[j], ibus_source(engine)),
        )
    } else {
        None
    }
}

// ---------------------------------------------------------------------------
// Executable text operations
// ---------------------------------------------------------------------------

pub open spec fn char_seqs(v: Seq<Vec<char>>) -> Seq<Seq<char>> {
    v.map_values(|x: Vec<char>| x@)
}

pub open spec fn string_seqs(v: Seq<String>) -> Seq<Seq<char>> {
    v.map_values(|x: String| x@)
}

fn is_whitespace_char(c: char) -> (r: bool)
    ensures
        r == is_whitespace(c),
{
    let n = c as u32;
    (0x09 <= n && n <= 0x0D) || n == 0x20 || n == 0x85 || n == 0xA0 || n == 0x1680 || (0x2000 <= n
        && n <= 0x200A) || n == 0x2028 || n == 0x2029 || n == 0x202F || n == 0x205F || n == 0x3000
}

fn sub_chars(s: &[char], lo: usize, hi: usize) -> (r: Vec<char>)
    requires
        lo <= hi <= s@.len(),
    ensures
        r@ == s@.subrange(lo as int, hi as int),
{
    let mut r: Vec<char> = Vec::new();
    let mut i = lo;
    while i < hi
        invariant
            lo <= i <= hi,
            hi <= s@.len(),
            r@ == s@.subrange(lo as int, i as int),
        decreases hi - i,
    {
        r.push(s[i]);
        assert(s@.subrange(lo as int, i + 1) =~= s@.subrange(lo as int, i as int).push(s@[i as int]));
        i = i + 1;
    }
    r
}

fn trim_chars(s: &[char]) -> (r: Vec<char>)
    ensures
        r@ == trim(s@),
{
    let len = s.len();
    let mut lo: usize = 0;
    assert(s@.subrange(0, len as int) =~= s@);
    while lo < len && is_whitespace_char(s[lo])
        invariant
            lo <= len,
            len == s@.len(),
            trim_start(s@) == trim_start(s@.subrange(lo as int, len as int)),
        decreases len - lo,
    {
        assert(s@.subrange(lo as int, len as int).drop_first() =~= s@.subrange(lo + 1, len as int));
        lo = lo + 1;
    }
    let mut hi: usize = len;
    while hi > lo && is_whitespace_char(s[hi - 1])
        invariant
            lo <= hi <= len,
            len == s@.len(),
            trim_start(s@) == s@.subrange(lo as int, len as int),
            trim(s@) == trim_end(s@.subrange(lo as int, hi as int)),
        decreases hi - lo,
    {
        assert(s@.subrange(lo as int, hi as int).drop_last() =~= s@.subrange(lo as int, hi - 1));
        hi = hi - 1;
    }
    sub_chars(s, lo, hi)
}

/// Whether `prefix` occurs in `s` at position `at`.
fn occurs_at(s: &[char], prefix: &[char], at: usize) -> (r: bool)
    requires
        at <= s@.len(),
    ensures
        r == prefix@.is_prefix_of(s@.skip(at as int)),
{
    if prefix.len() > s.len() - at {
        return false;
    }
    let n = s.len();
    let mut i: usize = 0;
    while i < prefix.len()
        invariant
            i <= prefix@.len(),
            n == s@.len(),
            at <= s@.len(),
            prefix@.len() <= s@.len() - at,
            forall|j: int| 0 <= j < i ==> prefix@[j] == s@[at + j],
        decreases prefix@.len() - i,
    {
        let pos = at + i;
        if prefix[i] != s[pos] {
            return false;
        }
        i = i + 1;
    }
    true
}

fn strip_prefix_chars(s: &[char], prefix: &[char]) -> (r: Option<Vec<char>>)
    ensures
        match r {
            Some(v) => strip_prefix(s@, prefix@) == Some(v@),
            None => strip_prefix(s@, prefix@) is None,
        },
{
    if occurs_at(s, prefix, 0) {
        assert(s@.skip(0) =~= s@);
        Some(sub_chars(s, prefix.len(), s.len()))
    } else {
        assert(s@.skip(0) =~= s@);
        None
    }
}

fn strip_suffix_chars(s: &[char], suffix: &[char]) -> (r: Option<Vec<char>>)
    ensures
        match r {
            Some(v) => strip_suffix(s@, suffix@) == Some(v@),
            None => strip_suffix(s@, suffix@) is None,
        },
{
    if suffix.len() > s.len() {
        return None;
    }
    let at = s.len() - suffix.len();
    if occurs_at(s, suffix, at) {
        assert(s@.skip(at as int) =~= suffix@);
        Some(sub_chars(s, 0, at))
    } else {
        assert(s@.skip(at as int) != suffix@ ==> !suffix@.is_prefix_of(s@.skip(at as int)));
        None
    }
}

/// Whether `needle` occurs in `s`.
fn contains_chars(s: &[char], needle: &[char]) -> (r: bool)
    ensures
        r == contains_seq(s@, needle@),
{
    if needle.len() > s.len() {
        return false;
    }
    let last = s.len() - needle.len();
    let mut k: usize = 0;
    loop
        invariant
            k <= last,
            last == s@.len() - needle@.len(),
            forall|j: int| 0 <= j < k ==> #[trigger] s@.subrange(j, j + needle@.len()) != needle@,
        decreases last - k,
    {
        if occurs_at(s, needle, k) {
            assert(s@.subrange(k as int, k + needle@.len()) =~= needle@);
            return true;
        }
        assert(s@.subrange(k as int, k + needle@.len()) != needle@) by {
            if s@.subrange(k as int, k + needle@.len()) == needle@ {
                assert(needle@.is_prefix_of(s@.skip(k as int)));
            }
        }
        if k == last {
            return false;
        }
        k = k + 1;
    }
}

/// Whether `needle` occurs in `s` (as `str::contains` with a string pattern).
pub fn str_contains(s: &str, needle: &str) -> (r: bool)
    ensures
        r == contains_seq(s@, needle@),
{
    let hay = chars_of(s);
    let pat = chars_of(needle);
    contains_chars(hay.as_slice(), pat.as_slice())
}

proof fn lemma_prepend_empty(parts: Seq<Seq<char>>)
    requires
        parts.len() >= 1,
    ensures
        prepend_first(Seq::empty(), parts) == parts,
{
    assert(Seq::<char>::empty() + parts[0] =~= parts[0]);
    assert(prepend_first(Seq::empty(), parts) =~= parts);
}

proof fn lemma_prepend_twice(a: Seq<char>, c: char, parts: Seq<Seq<char>>)
    requires
        parts.len() >= 1,
    ensures
        prepend_first(a, prepend_first(seq![c], parts)) == prepend_first(a.push(c), parts),
{
    assert(a + (seq![c] + parts[0]) =~= a.push(c) + parts[0]);
    assert(prepend_first(a, prepend_first(seq![c], parts)) =~= prepend_first(a.push(c), parts));
}

/// The parts of `s` between the occurrences of `sep`.
fn split_chars(s: &[char], sep: &[char]) -> (r: Vec<Vec<char>>)
    requires
        sep@.len() > 0,
    ensures
        char_seqs(r@) == split(s@, sep@),
{
    let mut parts: Vec<Vec<char>> = Vec::new();
    let mut cur: Vec<char> = Vec::new();
    let mut i: usize = 0;
    proof {
        assert(s@.skip(0) =~= s@);
        lemma_split_nonempty(s@, sep@);
        lemma_prepend_empty(split(s@, sep@));
        assert(char_seqs(parts@) + prepend_first(cur@, split(s@.skip(0), sep@)) =~= split(s@, sep@));
    }
    while i < s.len()
        invariant
            i <= s@.len(),
            sep@.len() > 0,
            split(s@, sep@) == char_seqs(parts@) + prepend_first(cur@, split(s@.skip(i as int), sep@)),
        decreases s@.len() - i,
    {
        let ghost rest = s@.skip(i as int);
        if occurs_at(s, sep, i) {
            proof {
                assert(rest.skip(sep@.len() as int) =~= s@.skip(i + sep@.len()));
                lemma_split_nonempty(rest.skip(sep@.len() as int), sep@);
                lemma_prepend_empty(split(rest.skip(sep@.len() as int), sep@));
                let tail = split(rest.skip(sep@.len() as int), sep@);
                assert(prepend_first(cur@, seq![Seq::<char>::empty()] + tail) =~= seq![cur@] + tail);
                assert(char_seqs(parts@.push(cur)) =~= char_seqs(parts@).push(cur@));
            }
            parts.push(cur);
            cur = Vec::new();
            i = i + sep.len();
            proof {
                assert(split(s@, sep@) =~= char_seqs(parts@) + prepend_first(cur@, split(s@.skip(i as int), sep@)));
            }
        } else {
            proof {
                assert(rest.drop_first() =~= s@.skip(i + 1));
                assert(rest[0] == s@[i as int]);
                lemma_split_nonempty(rest.drop_first(), sep@);
                lemma_prepend_twice(cur@, s@[i as int], split(rest.drop_first(), sep@));
            }
            cur.push(s[i]);
            i = i + 1;
        }
    }
    proof {
        assert(s@.skip(i as int) =~= Seq::<char>::empty());
        assert(prepend_first(cur@, seq![Seq::<char>::empty()]) =~= seq![cur@]);
        assert(char_seqs(parts@.push(cur)) =~= char_seqs(parts@).push(cur@));
    }
    parts.push(cur);
    proof {
        assert(char_seqs(parts@) =~= split(s@, sep@));
    }
    parts
}

fn list_inner_chars(current: &[char]) -> (r: Vec<char>)
    ensures
        r@ == list_inner(current@),
{
    let trimmed = trim_chars(current);
    let type_prefix = chars_of("@a(ss)");
    let without_type = match strip_prefix_chars(trimmed.as_slice(), type_prefix.as_slice()) {
        Some(rest) => trim_chars(rest.as_slice()),
        None => trim_chars(trimmed.as_slice()),
    };
    let open = chars_of("[");
    let close = chars_of("]");
    let unbracketed = match strip_prefix_chars(without_type.as_slice(), open.as_slice()) {
        Some(rest) => strip_suffix_chars(rest.as_slice(), close.as_slice()),
        None => None,
    };
    match unbracketed {
        Some(inner) => trim_chars(inner.as_slice()),
        None => trim_chars(without_type.as_slice()),
    }
}

fn source_item_chars(part: &[char]) -> (r: Option<Vec<char>>)
    ensures
        match r {
            Some(v) => source_item(part@) == Some(v@),
            None => source_item(part@) is None,
        },
{
    let mut p = trim_chars(part);
    if p.len() == 0 {
        None
    } else if p[p.len() - 1] == ')' {
        Some(p)
    } else {
        p.push(')');
        Some(p)
    }
}

/// The sources of a GNOME input-source list such as
/// `@a(ss) [('xkb', 'us'), ('ibus', 'korean')]`, each as written.
pub fn source_items(current: &str) -> (r: Vec<String>)
    ensures
        string_seqs(r@) == spec_source_items(current@),
{
    let chars = chars_of(current);
    let inner = list_inner_chars(chars.as_slice());
    let mut items: Vec<String> = Vec::new();
    if inner.len() == 0 {
        assert(string_seqs(items@) =~= Seq::empty());
        return items;
    }
    let sep = chars_of("),");
    proof {
        reveal_strlit("),");
    }
    let parts = split_chars(inner.as_slice(), sep.as_slice());
    let mut i: usize = 0;
    assert(char_seqs(parts@).take(0) =~= Seq::empty());
    assert(string_seqs(items@) =~= Seq::empty());
    while i < parts.len()
        invariant
            i <= parts@.len(),
            string_seqs(items@) == source_items_of_parts(char_seqs(parts@).take(i as int)),
        decreases parts@.len() - i,
    {
        let ghost prev = char_seqs(parts@).take(i as int);
        assert(char_seqs(parts@).take(i + 1).drop_last() =~= prev);
        assert(char_seqs(parts@).take(i + 1).last() == parts@[i as int]@);
        match source_item_chars(parts[i].as_slice()) {
            Some(item) => {
                let text = string_from_chars(item.as_slice());
                items.push(text);
                assert(string_seqs(items@) =~= source_items_of_parts(char_seqs(parts@).take(i + 1)));
            },
            None => {},
        }
        i = i + 1;
    }
    assert(char_seqs(parts@).take(parts@.len() as int) =~= char_seqs(parts@));
    items
}

/// The sources written back as a list.
pub fn source_list(items: &[String]) -> (r: String)
    ensures
        r@ == spec_source_list(string_seqs(items@)),
{
    if items.len() == 0 {
        return "[]".to_owned();
    }
    let mut r = "[".to_owned();
    let ghost start = r@;
    let mut i: usize = 0;
    while i < items.len()
        invariant
            0 < items@.len(),
            i <= items@.len(),
            r@ == start + join(string_seqs(items@).take(i as int), ", "@),
        decreases items@.len() - i,
    {
        let ghost before = r@;
        let ghost done = string_seqs(items@).take(i as int);
        assert(string_seqs(items@).take(i + 1).drop_last() =~= done);
        if i != 0 {
            push_str(&mut r, ", ");
        }
        push_str(&mut r, items[i].as_str());
        proof {
            if i == 0 {
                assert(start + join(string_seqs(items@).take(1), ", "@) =~= start + items@[0]@);
            } else {
                assert(r@ =~= start + (join(done, ", "@) + ", "@ + items@[i as int]@));
            }
        }
        i = i + 1;
    }
    push_str(&mut r, "]");
    assert(string_seqs(items@).take(items@.len() as int) =~= string_seqs(items@));
    r
}

/// How the engine is written in the source list: `('ibus', '<engine>')`.
pub fn ibus_source_item(engine: &str) -> (r: String)
    ensures
        r@ == ibus_source(engine@),
{
    let mut item = "('ibus', '".to_owned();
    push_str(&mut item, engine);
    push_str(&mut item, "')");
    item
}

/// The list with the engine added at the end, unless it is already there.
pub fn append_ibus_source(current: &str, engine: &str) -> (r: String)
    ensures
        r@ == spec_append_ibus_source(current@, engine@),
{
    let item = ibus_source_item(engine);
    let mut items = source_items(current);
    let mut found = false;
    let mut i: usize = 0;
    while i < items.len()
        invariant
            i <= items@.len(),
            found == exists|j: int| 0 <= j < i && items@[j]@ == item@,
        decreases items@.len() - i,
    {
        if items[i] == item {
            found = true;
        }
        i = i + 1;
    }
    proof {
        if found {
            let j = choose|j: int| 0 <= j < items@.len() && items@[j]@ == item@;
            assert(string_seqs(items@)[j] == item@);
        } else {
            assert forall|j: int| 0 <= j < items@.len() implies string_seqs(items@)[j] != item@ by {}
        }
    }
    if found {
        source_list(items.as_slice())
    } else {
        let ghost old_items = items@;
        items.push(item);
        assert(string_seqs(items@) =~= string_seqs(old_items).push(ibus_source(engine@)));
        source_list(items.as_slice())
    }
}

/// The list without the sources that mention the engine.
pub fn remove_ibus_source(current: &str, engine: &str) -> (r: String)
    ensures
        r@ == spec_remove_ibus_source(current@, engine@),
{
    let needle = chars_of(ibus_source_item(engine).as_str());
    let items = source_items(current);
    let ghost pred = not_mentioning(engine@);
    let mut kept: Vec<String> = Vec::new();
    let mut i: usize = 0;
    assert(string_seqs(items@).take(0) =~= Seq::empty());
    assert(string_seqs(kept@) =~= Seq::empty());
    while i < items.len()
        invariant
            i <= items@.len(),
            needle@ == ibus_source(engine@),
            pred == not_mentioning(engine@),
            string_seqs(kept@) == string_seqs(items@).take(i as int).filter(pred),
        decreases items@.len() - i,
    {
        let ghost before = kept@;
        proof {
            let prefix = string_seqs(items@).take(i as int);
            assert(string_seqs(items@).take(i + 1) =~= prefix.push(items@[i as int]@));
            prefix.lemma_filter_push(items@[i as int]@, pred);
        }
        let chars = chars_of(items[i].as_str());
        let keep = !contains_chars(chars.as_slice(), needle.as_slice());
        assert(chars@ == items@[i as int]@);
        assert(keep == !contains_seq(items@[i as int]@, ibus_source(engine@)));
        assert(keep == pred(items@[i as int]@));
        if keep {
            kept.push(items[i].clone());
            assert(string_seqs(kept@) =~= string_seqs(before).push(items@[i as int]@));
            assert(string_seqs(kept@) == string_seqs(items@).take(i + 1).filter(pred));
        } else {
            assert(string_seqs(kept@) == string_seqs(items@).take(i + 1).filter(pred));
        }
        i = i + 1;
    }
    assert(string_seqs(items@).take(items@.len() as int) =~= string_seqs(items@));
    source_list(kept.as_slice())
}

/// The position of the first source that mentions the engine.
pub fn source_index(current: &str, engine: &str) -> (r: Option<usize>)
    ensures
        match r {
            Some(i) => spec_source_index(current@, engine@) == Some(i as int),
            None => spec_source_index(current@, engine@) is None,
        },
{
    let needle = chars_of(ibus_source_item(engine).as_str());
    let items = source_items(current);
    let ghost v = spec_source_items(current@);
    let ghost n = ibus_source(engine@);
    let mut i: usize = 0;
    while i < items.len()
        invariant
            i <= items@.len(),
            needle@ == n,
            n == ibus_source(engine@),
            v == spec_source_items(current@),
            string_seqs(items@) == v,
            forall|j: int| 0 <= j < i ==> !contains_seq(v[j], n),
        decreases items@.len() - i,
    {
        let chars = chars_of(items[i].as_str());
        if contains_chars(chars.as_slice(), needle.as_slice()) {
            proof {
                assert(v[i as int] == items@[i as int]@);
                let first = |k: int|
                    0 <= k < v.len() && contains_seq(v[k], n) && forall|j: int|
                        0 <= j < k ==> !contains_seq(v[j], n);
                assert(first(i as int));
                let k = choose|k: int|
                    0 <= k < v.len() && contains_seq(v[k], n) && forall|j: int|
                        0 <= j < k ==> !contains_seq(v[j], n);
                assert(first(k));
                if k < i {
                    assert(!contains_seq(v[k], n));
                } else if i < k {
                    assert(!contains_seq(v[i as int], n));
                }
            }
            return Some(i);
        }
        assert(v[i as int] == items@[i as int]@);
        i = i + 1;
    }
    None
}

// ---------------------------------------------------------------------------
// Laws
// ---------------------------------------------------------------------------

/// A source as the list writes it: not empty, without surrounding whitespace,
/// closed by a `)` that does not follow another `)` or whitespace, and with no
/// `),` inside (the separator of the list).
pub open spec fn source_item_wf(item: Seq<char>) -> bool {
    &&& item.len() >= 2
    &&& !is_whitespace(item[0])
    &&& item.last() == ')'
    &&& item[item.len() - 2] != ')'
    &&& !is_whitespace(item[item.len() - 2])
    &&& forall|k: int| 0 <= k < item.len() - 1 ==> !(#[trigger] item[k] == ')' && item[k + 1] == ',')
}

proof fn lemma_trim_keeps(s: Seq<char>)
    requires
        s.len() > 0,
        !is_whitespace(s[0]),
        !is_whitespace(s.last()),
    ensures
        trim(s) == s,
{
}

proof fn lemma_trim_drops_lead(lead: Seq<char>, s: Seq<char>)
    requires
        lead == Seq::<char>::empty() || lead == seq![' '],
        s.len() > 0,
        !is_whitespace(s[0]),
        !is_whitespace(s.last()),
    ensures
        trim(lead + s) == s,
{
    if lead.len() == 1 {
        assert((lead + s).drop_first() =~= s);
        assert(is_whitespace((lead + s)[0]));
        assert(trim_start(lead + s) == trim_start(s));
    } else {
        assert(lead + s =~= s);
    }
    assert(trim_start(s) == s);
    assert(trim_end(s) == s);
}

proof fn lemma_prepend_concat(u: Seq<char>, v: Seq<char>, parts: Seq<Seq<char>>)
    requires
        parts.len() >= 1,
    ensures
        prepend_first(u, prepend_first(v, parts)) == prepend_first(u + v, parts),
{
    assert(u + (v + parts[0]) =~= (u + v) + parts[0]);
    assert(prepend_first(u, prepend_first(v, parts)) =~= prepend_first(u + v, parts));
}

/// No list separator starts at position `k` of `w`.
proof fn lemma_no_separator_at(w: Seq<char>, k: int)
    requires
        0 <= k <= w.len(),
        k + 1 < w.len() ==> !(w[k] == ')' && w[k + 1] == ','),
    ensures
        !"),"@.is_prefix_of(w.skip(k)),
{
    reveal_strlit("),");
    if "),"@.is_prefix_of(w.skip(k)) {
        assert(w.skip(k)[0] == "),"@[0]);
        assert(w.skip(k)[1] == "),"@[1]);
    }
}

/// Where no separator starts inside `a`, `a` begins the first part.
proof fn lemma_split_prefix(a: Seq<char>, c: Seq<char>)
    requires
        forall|k: int| 0 <= k < a.len() ==> !"),"@.is_prefix_of(#[trigger] (a + c).skip(k)),
    ensures
        split(a + c, "),"@) == prepend_first(a, split(c, "),"@)),
    decreases a.len(),
{
    reveal_strlit("),");
    lemma_split_nonempty(c, "),"@);
    if a.len() == 0 {
        assert(a + c =~= c);
        lemma_prepend_empty(split(c, "),"@));
    } else {
        let rest = a.drop_first();
        assert forall|k: int| 0 <= k < rest.len() implies !"),"@.is_prefix_of(#[trigger] (rest + c).skip(k)) by {
            assert((rest + c).skip(k) =~= (a + c).skip(k + 1));
        }
        lemma_split_prefix(rest, c);
        assert((a + c).skip(0) =~= a + c);
        assert((a + c).drop_first() =~= rest + c);
        lemma_split_nonempty(rest + c, "),"@);
        lemma_prepend_concat(seq![a[0]], rest, split(c, "),"@));
        assert(seq![a[0]] + rest =~= a);
    }
}

proof fn lemma_split_at_separator(c: Seq<char>)
    ensures
        split("),"@ + c, "),"@) == seq![Seq::<char>::empty()] + split(c, "),"@),
{
    reveal_strlit("),");
    assert(("),"@ + c).skip(2) =~= c);
    assert("),"@.is_prefix_of("),"@ + c));
}

proof fn lemma_join_front(items: Seq<Seq<char>>, sep: Seq<char>)
    requires
        items.len() >= 2,
    ensures
        join(items, sep) == items[0] + sep + join(items.drop_first(), sep),
    decreases items.len(),
{
    let dl = items.drop_last();
    let df = items.drop_first();
    if items.len() == 2 {
        assert(join(dl, sep) == dl[0]);
        assert(join(df, sep) == df[0]);
    } else {
        lemma_join_front(dl, sep);
        assert(dl.drop_first() =~= df.drop_last());
        assert(df.last() == items.last());
        assert(join(df, sep) == join(df.drop_last(), sep) + sep + df.last());
        assert(join(items, sep) =~= items[0] + sep + join(df, sep));
    }
}

proof fn lemma_join_ends(items: Seq<Seq<char>>, sep: Seq<char>)
    requires
        items.len() >= 1,
        items[0].len() > 0,
        items.last().len() > 0,
    ensures
        join(items, sep).len() > 0,
        join(items, sep)[0] == items[0][0],
        join(items, sep).last() == items.last().last(),
{
    if items.len() >= 2 {
        lemma_join_front(items, sep);
    }
}

/// The parts the list separator cuts a joined list into: each source but the
/// last loses its `)`, and each but the first keeps the space after the comma.
pub open spec fn joined_parts(items: Seq<Seq<char>>, lead: Seq<char>) -> Seq<Seq<char>> {
    Seq::new(
        items.len(),
        |k: int|
            (if k == 0 {
                lead
            } else {
                seq![' ']
            }) + (if k == items.len() - 1 {
                items[k]
            } else {
                items[k].drop_last()
            }),
    )
}

proof fn lemma_lead_free_of_separator(lead: Seq<char>, item: Seq<char>, w: Seq<char>, k: int)
    requires
        lead == Seq::<char>::empty() || lead == seq![' '],
        source_item_wf(item),
        0 <= k,
        k + 1 < lead.len() + item.len(),
        (lead + item).is_prefix_of(w),
    ensures
        !(w[k] == ')' && w[k + 1] == ','),
{
    let pre = lead + item;
    assert(w.subrange(0, pre.len() as int)[k] == w[k]);
    assert(w.subrange(0, pre.len() as int)[k + 1] == w[k + 1]);
    assert(pre[k] == w[k] && pre[k + 1] == w[k + 1]);
    if lead.len() == 1 {
        if k > 0 {
            assert(pre[k] == item[k - 1] && pre[k + 1] == item[k]);
        } else {
            assert(pre[0] == ' ');
        }
    } else {
        assert(pre[k] == item[k] && pre[k + 1] == item[k + 1]);
    }
}

proof fn lemma_split_joined(items: Seq<Seq<char>>, lead: Seq<char>)
    requires
        items.len() >= 1,
        forall|i: int| 0 <= i < items.len() ==> source_item_wf(#[trigger] items[i]),
        lead == Seq::<char>::empty() || lead == seq![' '],
    ensures
        split(lead + join(items, ", "@), "),"@) == joined_parts(items, lead),
    decreases items.len(),
{
    reveal_strlit("),");
    reveal_strlit(", ");
    let item = items[0];
    assert(source_item_wf(item));
    if items.len() == 1 {
        let a = lead + item;
        assert(a + Seq::<char>::empty() =~= a);
        assert forall|k: int| 0 <= k < a.len() implies !"),"@.is_prefix_of(#[trigger] (a + Seq::<char>::empty()).skip(k)) by {
            if k + 1 < a.len() {
                lemma_lead_free_of_separator(lead, item, a, k);
            }
            lemma_no_separator_at(a, k);
        }
        lemma_split_prefix(a, Seq::empty());
        assert(split(Seq::<char>::empty(), "),"@) == seq![Seq::<char>::empty()]);
        assert(prepend_first(a, seq![Seq::<char>::empty()]) =~= seq![a]);
        assert(join(items, ", "@) == item);
        assert(joined_parts(items, lead) =~= seq![a]);
    } else {
        let rest = items.drop_first();
        let p = item.drop_last();
        let tail = seq![' '] + join(rest, ", "@);
        let a = lead + p;
        let w = a + ("),"@ + tail);
        lemma_join_front(items, ", "@);
        assert(item =~= p.push(')'));
        assert(lead + join(items, ", "@) =~= w);
        assert(w[a.len() as int] == ')');
        assert(w[a.len() as int + 1] == ',');
        assert((lead + item).is_prefix_of(w)) by {
            assert(w.subrange(0, (lead + item).len() as int) =~= lead + item);
        }
        assert forall|k: int| 0 <= k < a.len() implies !"),"@.is_prefix_of(#[trigger] w.skip(k)) by {
            lemma_lead_free_of_separator(lead, item, w, k);
            lemma_no_separator_at(w, k);
        }
        lemma_split_prefix(a, "),"@ + tail);
        lemma_split_at_separator(tail);
        assert forall|i: int| 0 <= i < rest.len() implies source_item_wf(#[trigger] rest[i]) by {
            assert(rest[i] == items[i + 1]);
        }
        lemma_split_joined(rest, seq![' ']);
        assert(prepend_first(a, seq![Seq::<char>::empty()] + joined_parts(rest, seq![' '])) =~= joined_parts(items, lead));
    }
}

proof fn lemma_items_of_parts(parts: Seq<Seq<char>>, items: Seq<Seq<char>>)
    requires
        parts.len() == items.len(),
        forall|i: int| 0 <= i < parts.len() ==> source_item(#[trigger] parts[i]) == Some(items[i]),
    ensures
        source_items_of_parts(parts) == items,
    decreases parts.len(),
{
    if parts.len() > 0 {
        assert forall|i: int| 0 <= i < parts.drop_last().len() implies source_item(#[trigger] parts.drop_last()[i]) == Some(items.drop_last()[i]) by {
            assert(parts.drop_last()[i] == parts[i]);
        }
        lemma_items_of_parts(parts.drop_last(), items.drop_last());
        assert(source_item(parts[parts.len() - 1]) == Some(items[items.len() - 1]));
        assert(items.drop_last().push(items.last()) =~= items);
    }
}

proof fn lemma_joined_part_reads_back(items: Seq<Seq<char>>, lead: Seq<char>, k: int)
    requires
        0 <= k < items.len(),
        source_item_wf(items[k]),
        lead == Seq::<char>::empty() || lead == seq![' '],
    ensures
        source_item(joined_parts(items, lead)[k]) == Some(items[k]),
{
    let item = items[k];
    let l = if k == 0 {
        lead
    } else {
        seq![' ']
    };
    if k == items.len() - 1 {
        lemma_trim_drops_lead(l, item);
    } else {
        let body = item.drop_last();
        assert(body[0] == item[0]);
        assert(body.last() == item[item.len() - 2]);
        lemma_trim_drops_lead(l, body);
        assert(body.push(')') =~= item);
    }
}

proof fn lemma_empty_list_reads_empty()
    ensures
        list_inner("[]"@) == Seq::<char>::empty(),
{
    reveal_strlit("[]");
    reveal_strlit("[");
    reveal_strlit("]");
    reveal_strlit("@a(ss)");
    let list = "[]"@;
    lemma_trim_keeps(list);
    assert(!"@a(ss)"@.is_prefix_of(list));
    assert("["@.is_prefix_of(list));
    assert(list.skip(1) =~= seq![']']);
    assert(seq![']'].skip(0) =~= "]"@);
    assert(seq![']'].take(0) =~= Seq::<char>::empty());
    assert(strip_suffix(seq![']'], "]"@) == Some(Seq::<char>::empty()));
    assert(trim(Seq::<char>::empty()) =~= Seq::<char>::empty());
}

proof fn lemma_bracketed_list_inner(j: Seq<char>)
    requires
        j.len() > 0,
        !is_whitespace(j[0]),
        !is_whitespace(j.last()),
    ensures
        list_inner("["@ + j + "]"@) == j,
{
    reveal_strlit("[");
    reveal_strlit("]");
    reveal_strlit("@a(ss)");
    let list = "["@ + j + "]"@;
    assert(list[0] == '[');
    assert(list.last() == ']');
    lemma_trim_keeps(list);
    assert(!"@a(ss)"@.is_prefix_of(list)) by {
        if "@a(ss)"@.is_prefix_of(list) {
            assert(list.subrange(0, 6)[0] == list[0]);
        }
    }
    assert("["@.is_prefix_of(list)) by {
        assert(list.subrange(0, 1) =~= "["@);
    }
    assert(list.skip(1) =~= j + "]"@);
    let rest = j + "]"@;
    assert(rest.skip(rest.len() - 1) =~= "]"@);
    assert(rest.take(rest.len() - 1) =~= j);
    assert(strip_suffix(rest, "]"@) == Some(j));
    lemma_trim_keeps(j);
}

/// A list written from well-formed sources reads back as the same sources.
pub proof fn lemma_source_list_round_trip(items: Seq<Seq<char>>)
    requires
        forall|i: int| 0 <= i < items.len() ==> source_item_wf(#[trigger] items[i]),
    ensures
        spec_source_items(spec_source_list(items)) == items,
{
    if items.len() == 0 {
        lemma_empty_list_reads_empty();
        assert(items =~= Seq::<Seq<char>>::empty());
    } else {
        let j = join(items, ", "@);
        assert(source_item_wf(items[0]));
        assert(source_item_wf(items[items.len() - 1]));
        lemma_join_ends(items, ", "@);
        lemma_bracketed_list_inner(j);
        lemma_split_joined(items, Seq::empty());
        assert(Seq::<char>::empty() + j =~= j);
        let parts = joined_parts(items, Seq::empty());
        assert forall|k: int| 0 <= k < parts.len() implies source_item(#[trigger] parts[k]) == Some(items[k]) by {
            lemma_joined_part_reads_back(items, Seq::empty(), k);
        }
        lemma_items_of_parts(parts, items);
    }
}

/// An engine name whose source can be read back from the list: it has no `),`.
pub open spec fn engine_name_wf(engine: Seq<char>) -> bool {
    forall|k: int| 0 <= k < engine.len() - 1 ==> !(#[trigger] engine[k] == ')' && engine[k + 1] == ',')
}

proof fn lemma_ibus_source_wf(engine: Seq<char>)
    requires
        engine_name_wf(engine),
    ensures
        source_item_wf(ibus_source(engine)),
{
    reveal_strlit("('ibus', '");
    reveal_strlit("')");
    let p = "('ibus', '"@;
    let q = "')"@;
    let x = ibus_source(engine);
    assert(x.len() == engine.len() + 12);
    assert(x[0] == '(');
    assert(x[x.len() - 2] == '\'');
    assert(x.last() == ')');
    assert forall|k: int| 0 <= k < x.len() - 1 implies !(#[trigger] x[k] == ')' && x[k + 1] == ',') by {
        if k < 10 {
            assert(x[k] == p[k]);
        } else if k < 10 + engine.len() {
            assert(x[k] == engine[k - 10]);
            if k + 1 < 10 + engine.len() {
                assert(x[k + 1] == engine[k - 9]);
            } else {
                assert(x[k + 1] == q[0]);
            }
        } else {
            assert(x[k] == q[k - 10 - engine.len()]);
        }
    }
}

proof fn lemma_source_contains_itself(s: Seq<char>)
    ensures
        contains_seq(s, s),
{
    let k: int = 0;
    assert(s.subrange(k, k + s.len()) =~= s);
}

/// What the list holds after the engine's source is appended: the sources it
/// held, and the engine's source at the end unless it was there already.
/// Afterwards the engine is found in the list, and appending again changes
/// nothing.
pub proof fn lemma_append_then_found(current: Seq<char>, engine: Seq<char>)
    requires
        forall|i: int|
            0 <= i < spec_source_items(current).len() ==> source_item_wf(
                #[trigger] spec_source_items(current)[i],
            ),
        engine_name_wf(engine),
    ensures
        spec_source_items(spec_append_ibus_source(current, engine)) == (if spec_source_items(
            current,
        ).contains(ibus_source(engine)) {
            spec_source_items(current)
        } else {
            spec_source_items(current).push(ibus_source(engine))
        }),
        spec_source_index(spec_append_ibus_source(current, engine), engine) is Some,
        spec_append_ibus_source(spec_append_ibus_source(current, engine), engine)
            == spec_append_ibus_source(current, engine),
{
    let items = spec_source_items(current);
    let src = ibus_source(engine);
    lemma_ibus_source_wf(engine);
    let after = if items.contains(src) {
        items
    } else {
        items.push(src)
    };
    assert forall|i: int| 0 <= i < after.len() implies source_item_wf(#[trigger] after[i]) by {
        if i < items.len() {
            assert(after[i] == items[i]);
        }
    }
    lemma_source_list_round_trip(after);
    assert(after.contains(src)) by {
        if !items.contains(src) {
            assert(after[items.len() as int] == src);
        }
    }
    let i = choose|i: int| 0 <= i < after.len() && after[i] == src;
    lemma_source_contains_itself(src);
    assert(contains_seq(after[i], src));
}

/// After the engine's source is removed, the engine is not found in the list.
pub proof fn lemma_remove_then_absent(current: Seq<char>, engine: Seq<char>)
    requires
        forall|i: int|
            0 <= i < spec_source_items(current).len() ==> source_item_wf(
                #[trigger] spec_source_items(current)[i],
            ),
    ensures
        spec_source_items(spec_remove_ibus_source(current, engine)) == spec_source_items(
            current,
        ).filter(not_mentioning(engine)),
        spec_source_index(spec_remove_ibus_source(current, engine), engine) is None,
{
    let items = spec_source_items(current);
    let kept = items.filter(not_mentioning(engine));
    assert forall|i: int| 0 <= i < kept.len() implies source_item_wf(#[trigger] kept[i]) by {
        assert(kept.contains(kept[i]));
        items.lemma_filter_contains_rev(not_mentioning(engine), kept[i]);
        let j = choose|j: int| 0 <= j < items.len() && items[j] == kept[i];
        assert(source_item_wf(items[j]));
    }
    lemma_source_list_round_trip(kept);
    assert forall|i: int| 0 <= i < kept.len() implies !contains_seq(#[trigger] kept[i], ibus_source(engine)) by {
        items.lemma_filter_pred(not_mentioning(engine), i);
    }
}

proof fn lemma_filter_keeps_all(items: Seq<Seq<char>>, pred: spec_fn(Seq<char>) -> bool)
    requires
        forall|i: int| 0 <= i < items.len() ==> pred(#[trigger] items[i]),
    ensures
        items.filter(pred) == items,
    decreases items.len(),
{
    if items.len() > 0 {
        let init = items.drop_last();
        assert forall|i: int| 0 <= i < init.len() implies pred(#[trigger] init[i]) by {
            assert(init[i] == items[i]);
        }
        lemma_filter_keeps_all(init, pred);
        init.lemma_filter_push(items.last(), pred);
        assert(init.push(items.last()) =~= items);
    }
}

/// Removing the engine undoes appending it: when no source of the list
/// mentions the engine, appending the engine and then removing it gives back
/// the sources the list held (the list being well-formed and the engine name
/// free of `),`).
pub proof fn lemma_remove_undoes_append(current: Seq<char>, engine: Seq<char>)
    requires
        forall|i: int|
            0 <= i < spec_source_items(current).len() ==> source_item_wf(
                #[trigger] spec_source_items(current)[i],
            ),
        engine_name_wf(engine),
        forall|i: int|
            0 <= i < spec_source_items(current).len() ==> !contains_seq(
                #[trigger] spec_source_items(current)[i],
                ibus_source(engine),
            ),
    ensures
        spec_source_items(spec_remove_ibus_source(spec_append_ibus_source(current, engine), engine))
            == spec_source_items(current),
{
    let items = spec_source_items(current);
    let src = ibus_source(engine);
    let pred = not_mentioning(engine);
    lemma_source_contains_itself(src);
    assert(!items.contains(src)) by {
        if items.contains(src) {
            let k = choose|k: int| 0 <= k < items.len() && items[k] == src;
            assert(!contains_seq(items[k], src));
        }
    }
    lemma_append_then_found(current, engine);
    let appended = spec_append_ibus_source(current, engine);
    assert(spec_source_items(appended) == items.push(src));
    lemma_ibus_source_wf(engine);
    assert forall|i: int|
        0 <= i < spec_source_items(appended).len() implies source_item_wf(
            #[trigger] spec_source_items(appended)[i],
        ) by {
        if i < items.len() {
            assert(spec_source_items(appended)[i] == items[i]);
        }
    }
    lemma_remove_then_absent(appended, engine);
    items.lemma_filter_push(src, pred);
    assert(!pred(src));
    assert forall|i: int| 0 <= i < items.len() implies pred(#[trigger] items[i]) by {}
    lemma_filter_keeps_all(items, pred);
}

/// A source written as a GVariant pair of strings: `('a', 'b')`.
pub open spec fn source_pair(a: Seq<char>, b: Seq<char>) -> Seq<char> {
    "('"@ + a + "', '"@ + b + "')"@
}

/// The sources written for a list of string pairs.
pub open spec fn pair_sources(pairs: Seq<(Seq<char>, Seq<char>)>) -> Seq<Seq<char>> {
    pairs.map_values(|p: (Seq<char>, Seq<char>)| source_pair(p.0, p.1))
}

/// No `)` occurs in `s`.
pub open spec fn no_close_paren(s: Seq<char>) -> bool {
    forall|k: int| 0 <= k < s.len() ==> s[k] != ')'
}

proof fn lemma_source_pair_wf(a: Seq<char>, b: Seq<char>)
    requires
        no_close_paren(a),
        no_close_paren(b),
    ensures
        source_item_wf(source_pair(a, b)),
{
    reveal_strlit("('");
    reveal_strlit("', '");
    reveal_strlit("')");
    let p = "('"@;
    let m = "', '"@;
    let q = "')"@;
    let x = source_pair(a, b);
    let n = a.len() as int;
    let l = b.len() as int;
    assert(x.len() == n + l + 8);
    assert(x[0] == '(');
    assert(x.last() == ')');
    assert(x[x.len() - 2] == '\'');
    assert forall|k: int| 0 <= k < x.len() - 1 implies !(#[trigger] x[k] == ')' && x[k + 1] == ',') by {
        if k < 2 {
            assert(x[k] == p[k]);
        } else if k < 2 + n {
            assert(x[k] == a[k - 2]);
        } else if k < 6 + n {
            assert(x[k] == m[k - 2 - n]);
        } else if k < 6 + n + l {
            assert(x[k] == b[k - 6 - n]);
        } else {
            assert(x[k] == q[k - 6 - n - l]);
        }
    }
}

proof fn lemma_typed_list_inner(list: Seq<char>)
    requires
        list.len() > 0,
        list[0] == '[',
        !is_whitespace(list.last()),
    ensures
        list_inner("@a(ss) "@ + list) == list_inner(list),
{
    reveal_strlit("@a(ss) ");
    reveal_strlit("@a(ss)");
    let typed = "@a(ss) "@ + list;
    lemma_trim_keeps(typed);
    lemma_trim_keeps(list);
    assert("@a(ss)"@.is_prefix_of(typed)) by {
        assert(typed.subrange(0, 6) =~= "@a(ss)"@);
    }
    assert(typed.skip(6) =~= seq![' '] + list);
    lemma_trim_drops_lead(seq![' '], list);
    assert(!"@a(ss)"@.is_prefix_of(list)) by {
        if "@a(ss)"@.is_prefix_of(list) {
            assert(list.subrange(0, 6)[0] == list[0]);
        }
    }
}

/// A list written from sources of the shape `('a', 'b')`, where neither `a`
/// nor `b` holds a `)`, reads back as the same sources, with or without the
/// GVariant type annotation `@a(ss) ` in front of it.
pub proof fn lemma_pair_list_round_trip(pairs: Seq<(Seq<char>, Seq<char>)>)
    requires
        forall|i: int| 0 <= i < pairs.len() ==> no_close_paren(#[trigger] pairs[i].0) && no_close_paren(pairs[i].1),
    ensures
        spec_source_items(spec_source_list(pair_sources(pairs))) == pair_sources(pairs),
        spec_source_items("@a(ss) "@ + spec_source_list(pair_sources(pairs))) == pair_sources(pairs),
{
    let items = pair_sources(pairs);
    assert forall|i: int| 0 <= i < items.len() implies source_item_wf(#[trigger] items[i]) by {
        lemma_source_pair_wf(pairs[i].0, pairs[i].1);
    }
    lemma_source_list_round_trip(items);
    let list = spec_source_list(items);
    reveal_strlit("[]");
    reveal_strlit("[");
    reveal_strlit("]");
    if items.len() == 0 {
        assert(list[0] == '[' && list.last() == ']');
    } else {
        assert(list[0] == '[');
        assert(list.last() == ']');
    }
    lemma_typed_list_inner(list);
}

} // verus!
