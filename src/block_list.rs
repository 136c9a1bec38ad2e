//! Block lists: reading hostnames out of list files, and the store that
//! answers whether a hostname is blocked.

use vstd::prelude::*;
use vstd::string::StrSliceExecFns;
use vstd::utf8::{decode_utf8, valid_utf8};
use crate::error::{BlockListError, BlockListErrorKind};
use crate::text::utf8_string;

verus! {

/// Where a block list is read from.
#[derive(Clone, Copy, Debug, PartialEq, Eq, Structural)]
pub enum BlockListKind {
    File,
    Http,
}

/// How the lines of a block list are laid out.
#[derive(Clone, Copy, Debug, PartialEq, Eq, Structural)]
pub enum BlockListFormat {
    /// `<ip> <hostname>`, as in a hosts file.
    Hosts,
    /// `<hostname>` alone.
    OnePerLine,
}

/// The byte that ends a line.
pub const LINE_FEED: u8 = 0x0a;

/// The byte that, before a line feed, belongs to the line ending.
pub const CARRIAGE_RETURN: u8 = 0x0d;

/// Whether `c` is white space (the Unicode `White_Space` property).
pub open spec fn is_space(c: char) -> bool {
    let u = c as u32;
    (0x09 <= u <= 0x0d) || u == 0x20 || u == 0x85 || u == 0xa0 || u == 0x1680
        || (0x2000 <= u <= 0x200a) || u == 0x2028 || u == 0x2029 || u == 0x202f
        || u == 0x205f || u == 0x3000
}

/// Whether a comment starts at `j`: a `#` at the start of the line or right
/// after white space.
pub open spec fn comment_at(s: Seq<char>, j: int) -> bool {
    s[j] == '#' && (j == 0 || is_space(s[j - 1]))
}

/// The first position from `j` on where a comment starts, or the length of
/// the line where none does.
pub open spec fn first_comment_from(s: Seq<char>, j: int) -> int
    decreases s.len() - j,
{
    if j < 0 || j >= s.len() {
        s.len() as int
    } else if comment_at(s, j) {
        j
    } else {
        first_comment_from(s, j + 1)
    }
}

/// Where the run of white space that ends at `i` starts.
pub open spec fn space_run_start(s: Seq<char>, i: int) -> int
    decreases i,
{
    if 0 < i <= s.len() && is_space(s[i - 1]) {
        space_run_start(s, i - 1)
    } else {
        i
    }
}

/// A line without its trailing comment and the white space before it.
pub open spec fn without_comment(s: Seq<char>) -> Seq<char> {
    let j = first_comment_from(s, 0);
    if j < s.len() {
        s.subrange(0, space_run_start(s, j))
    } else {
        s
    }
}

/// The last position below `i`, and above 0, that holds white space; 0
/// where there is none.
pub open spec fn last_space_before(s: Seq<char>, i: int) -> int
    decreases i,
{
    if i <= 1 || i > s.len() {
        0
    } else if is_space(s[i - 1]) {
        i - 1
    } else {
        last_space_before(s, i - 1)
    }
}

/// The hostname field of a hosts line: what follows its last white space
/// (white space that opens the line does not count), or the whole line.
pub open spec fn host_field(s: Seq<char>) -> Seq<char> {
    let k = last_space_before(s, s.len() as int);
    if k > 0 {
        s.subrange(k + 1, s.len() as int)
    } else {
        s
    }
}

/// The entry that one line of a list gives, if any.
pub open spec fn line_entry(line: Seq<char>, format: BlockListFormat) -> Option<Seq<char>> {
    let t = without_comment(line);
    if t.len() == 0 {
        None
    } else {
        match format {
            BlockListFormat::OnePerLine => Some(t),
            BlockListFormat::Hosts => {
                let h = host_field(t);
                if h.len() == 0 {
                    None
                } else {
                    Some(h)
                }
            },
        }
    }
}

fn is_space_char(c: char) -> (r: bool)
    ensures
        r == is_space(c),
{
    let u = c as u32;
    (0x09 <= u && u <= 0x0d) || u == 0x20 || u == 0x85 || u == 0xa0 || u == 0x1680
        || (0x2000 <= u && u <= 0x200a) || u == 0x2028 || u == 0x2029 || u == 0x202f
        || u == 0x205f || u == 0x3000
}

fn chars_of(s: &str) -> (r: Vec<char>)
    ensures
        r@ == s@,
{
    let mut out: Vec<char> = Vec::new();
    for c in it: s.chars()
        invariant
            out@ == it.seq().subrange(0, it.index() as int),
    {
        out.push(c);
        assert(out@ =~= it.seq().subrange(0, it.index() + 1));
    }
    out
}

/// A line without its trailing comment (see `without_comment`); `None`
/// where nothing is left.
pub fn strip_comments(line: &String) -> (r: Option<String>)
    ensures
        match r {
            Some(s) => s@ == without_comment(line@) && s@.len() > 0,
            None => without_comment(line@).len() == 0,
        },
{
    let text = line.as_str();
    let cs = chars_of(text);
    let ghost s = line@;
    let n = cs.len();
    let mut j: usize = 0;
    while j < n && !(cs[j] == '#' && (j == 0 || is_space_char(cs[j - 1])))
        invariant
            j <= n,
            cs@ == s,
            text@ == s,
            n == s.len(),
            first_comment_from(s, 0) == first_comment_from(s, j as int),
        decreases n - j,
    {
        j += 1;
    }
    let mut end: usize = j;
    if j < n {
        while end > 0 && is_space_char(cs[end - 1])
            invariant
                end <= j < n,
                cs@ == s,
                n == s.len(),
                space_run_start(s, j as int) == space_run_start(s, end as int),
            decreases end,
        {
            end -= 1;
        }
    }
    proof {
        if j < n {
            assert(without_comment(s) =~= s.subrange(0, end as int));
        } else {
            assert(s.subrange(0, end as int) =~= s);
        }
    }
    if end == 0 {
        return None;
    }
    Some(text.substring_char(0, end).to_owned())
}

/// The hostname field of a hosts line (see `host_field`); `None` where it
/// is empty.
pub fn extract_hostname(line: &String) -> (r: Option<String>)
    ensures
        match r {
            Some(s) => s@ == host_field(line@) && s@.len() > 0,
            None => host_field(line@).len() == 0,
        },
{
    let text = line.as_str();
    let cs = chars_of(text);
    let ghost s = line@;
    let n = cs.len();
    let mut i: usize = n;
    while i > 1 && !is_space_char(cs[i - 1])
        invariant
            i <= n,
            cs@ == s,
            n == s.len(),
            last_space_before(s, n as int) == last_space_before(s, i as int),
        decreases i,
    {
        i -= 1;
    }
    let start: usize = if i > 1 { i } else { 0 };
    assert(host_field(s) =~= s.subrange(start as int, n as int));
    if start == n {
        return None;
    }
    Some(text.substring_char(start, n).to_owned())
}

/// The entry that one line of a list gives (see `line_entry`).
pub fn process_line(line: &String, format: &BlockListFormat) -> (r: Option<String>)
    ensures
        match line_entry(line@, *format) {
            Some(h) => r matches Some(s) && s@ == h,
            None => r is None,
        },
{
    let no_comments = match strip_comments(line) {
        Some(s) => s,
        None => return None,
    };
    match format {
        BlockListFormat::Hosts => extract_hostname(&no_comments),
        BlockListFormat::OnePerLine => Some(no_comments),
    }
}

/// A line's bytes without the carriage return of a `\r\n` ending.
pub open spec fn chomp(l: Seq<u8>) -> Seq<u8> {
    if l.len() > 0 && l.last() == CARRIAGE_RETURN {
        l.drop_last()
    } else {
        l
    }
}

/// The entry that one line's bytes give: none where they are not UTF-8.
pub open spec fn bytes_entry(l: Seq<u8>, format: BlockListFormat) -> Option<Seq<char>> {
    if valid_utf8(l) {
        line_entry(decode_utf8(l), format)
    } else {
        None
    }
}

/// A sequence of at most one entry.
pub open spec fn entry_seq(e: Option<Seq<char>>) -> Seq<Seq<char>> {
    match e {
        Some(h) => seq![h],
        None => Seq::empty(),
    }
}

/// The entries of the lines of `b` from the line that starts at `start`,
/// whose bytes up to `i` hold no line feed.
pub open spec fn entries_scan(b: Seq<u8>, start: int, i: int, format: BlockListFormat) -> Seq<
    Seq<char>,
>
    decreases b.len() - i,
{
    if i >= b.len() {
        if 0 <= start < b.len() {
            entry_seq(bytes_entry(b.subrange(start, b.len() as int), format))
        } else {
            Seq::empty()
        }
    } else if i >= 0 && b[i] == LINE_FEED {
        entry_seq(bytes_entry(chomp(b.subrange(start, i)), format)) + entries_scan(
            b,
            i + 1,
            i + 1,
            format,
        )
    } else {
        entries_scan(b, start, i + 1, format)
    }
}

/// The entries of a whole list, line by line: lines end at `\n` or `\r\n`,
/// the last one may have no ending, and a line that is not UTF-8 gives none.
pub open spec fn entries_of(b: Seq<u8>, format: BlockListFormat) -> Seq<Seq<char>> {
    entries_scan(b, 0, 0, format)
}

/// The text of each string.
pub open spec fn texts(v: Seq<String>) -> Seq<Seq<char>> {
    v.map_values(|s: String| s@)
}

fn bytes_line_entry(line: Vec<u8>, format: &BlockListFormat) -> (r: Option<String>)
    ensures
        match bytes_entry(line@, *format) {
            Some(h) => r matches Some(s) && s@ == h,
            None => r is None,
        },
{
    match utf8_string(line) {
        Some(s) => process_line(&s, format),
        None => None,
    }
}

/// The entries of the text of a block list (see `entries_of`).
pub fn parse_entries(contents: &[u8], format: &BlockListFormat) -> (r: Vec<String>)
    ensures
        texts(r@) == entries_of(contents@, *format),
{
    let ghost b = contents@;
    let n = contents.len();
    let mut entries: Vec<String> = Vec::new();
    let mut start: usize = 0;
    let mut i: usize = 0;
    while i < n
        invariant
            b == contents@,
            n == b.len(),
            start <= i <= n,
            texts(entries@) + entries_scan(b, start as int, i as int, *format) == entries_of(
                b,
                *format,
            ),
        decreases n - i,
    {
        if contents[i] == LINE_FEED {
            let mut end = i;
            if end > start && contents[end - 1] == CARRIAGE_RETURN {
                end -= 1;
            }
            let line = vstd::slice::slice_to_vec(vstd::slice::slice_subrange(contents, start, end));
            assert(line@ =~= chomp(b.subrange(start as int, i as int)));
            let ghost before = entries@;
            match bytes_line_entry(line, format) {
                Some(h) => {
                    entries.push(h);
                },
                None => {},
            }
            assert(texts(entries@) =~= texts(before) + entry_seq(
                bytes_entry(chomp(b.subrange(start as int, i as int)), *format),
            ));
            assert(texts(entries@) + entries_scan(b, (i + 1) as int, (i + 1) as int, *format)
                =~= texts(before) + entries_scan(b, start as int, i as int, *format));
            start = i + 1;
        }
        i += 1;
    }
    if start < n {
        let line = vstd::slice::slice_to_vec(vstd::slice::slice_subrange(contents, start, n));
        let ghost before = entries@;
        match bytes_line_entry(line, format) {
            Some(h) => {
                entries.push(h);
            },
            None => {},
        }
        assert(texts(entries@) =~= texts(before) + entries_scan(b, start as int, n as int, *format));
    } else {
        assert(texts(entries@) =~= texts(entries@) + entries_scan(b, start as int, n as int, *format));
    }
    entries
}

/// One loaded block list: where it came from, and its entries.
#[derive(Clone, Debug)]
pub struct BlockList {
    pub kind: BlockListKind,
    pub format: BlockListFormat,
    pub path: Option<String>,
    pub url: Option<String>,
    pub entries: Vec<String>,
}

/// What a block list holds, as text.
pub struct BlockListView {
    pub kind: BlockListKind,
    pub format: BlockListFormat,
    pub path: Option<Seq<char>>,
    pub url: Option<Seq<char>>,
    pub entries: Seq<Seq<char>>,
}

/// The text of an optional string.
pub open spec fn opt_text(o: Option<String>) -> Option<Seq<char>> {
    match o {
        Some(s) => Some(s@),
        None => None,
    }
}

impl View for BlockList {
    type V = BlockListView;

    open spec fn view(&self) -> BlockListView {
        BlockListView {
            kind: self.kind,
            format: self.format,
            path: opt_text(self.path),
            url: opt_text(self.url),
            entries: texts(self.entries@),
        }
    }
}

/// All loaded block lists, in the order they were added.
#[derive(Clone, Debug)]
pub struct BlockLists {
    pub lists: Vec<BlockList>,
}

impl View for BlockLists {
    type V = Seq<BlockListView>;

    open spec fn view(&self) -> Seq<BlockListView> {
        self.lists@.map_values(|l: BlockList| l@)
    }
}

/// Whether `h` is an entry of any of the lists.
pub open spec fn blocks(lists: Seq<BlockListView>, h: Seq<char>) -> bool {
    exists|i: int, j: int|
        0 <= i < lists.len() && 0 <= j < lists[i].entries.len() && #[trigger] lists[i].entries[j]
            == h
}

/// Every list holds at least one entry: an empty load is a failure, not a list.
pub open spec fn lists_well_formed(lists: Seq<BlockListView>) -> bool {
    forall|i: int| 0 <= i < lists.len() ==> #[trigger] lists[i].entries.len() > 0
}

/// The list made from a source's text.
pub open spec fn loaded_list(
    kind: BlockListKind,
    format: BlockListFormat,
    path: Option<Seq<char>>,
    url: Option<Seq<char>>,
    b: Seq<u8>,
) -> BlockListView {
    BlockListView { kind, format, path, url, entries: entries_of(b, format) }
}

/// What a fresh fetch of a source gave: its text, or nothing.
pub open spec fn fetched_text(f: Result<Vec<u8>, BlockListError>) -> Option<Seq<u8>> {
    match f {
        Ok(b) => Some(b@),
        Err(_) => None,
    }
}

/// Whether a fresh fetch replaces a list: it gave text with at least one entry.
pub open spec fn refreshes(l: BlockListView, f: Option<Seq<u8>>) -> bool {
    match f {
        Some(b) => entries_of(b, l.format).len() > 0,
        None => false,
    }
}

/// A list after a fresh fetch: with the new entries where the fetch
/// `refreshes` it, else as it was.
pub open spec fn refreshed(l: BlockListView, f: Option<Seq<u8>>) -> BlockListView {
    if refreshes(l, f) {
        loaded_list(l.kind, l.format, l.path, l.url, f->Some_0)
    } else {
        l
    }
}

/// All lists after a reload that fetched `f[i]` for list `i`.
pub open spec fn reloaded(old: Seq<BlockListView>, f: Seq<Option<Seq<u8>>>) -> Seq<BlockListView> {
    Seq::new(old.len(), |i: int| refreshed(old[i], f[i]))
}

/// Whether a reload refreshes at least one list.
pub open spec fn reload_succeeds(old: Seq<BlockListView>, f: Seq<Option<Seq<u8>>>) -> bool {
    exists|i: int| 0 <= i < old.len() && #[trigger] refreshes(old[i], f[i])
}

/// What each fresh fetch gave, in order.
pub open spec fn fetched_texts(v: Seq<Result<Vec<u8>, BlockListError>>) -> Seq<Option<Seq<u8>>> {
    v.map_values(|f: Result<Vec<u8>, BlockListError>| fetched_text(f))
}

/// A list with the entries of a fresh fetch where it gave any, else as it was;
/// and whether it did.
fn refresh_list(list: BlockList, fetched: &Result<Vec<u8>, BlockListError>) -> (r: (BlockList, bool))
    ensures
        r.0@ == refreshed(list@, fetched_text(*fetched)),
        r.1 == refreshes(list@, fetched_text(*fetched)),
{
    match fetched {
        Ok(bytes) => {
            let entries = parse_entries(bytes.as_slice(), &list.format);
            if entries.len() > 0 {
                let BlockList { kind, format, path, url, entries: _ } = list;
                (BlockList { kind, format, path, url, entries }, true)
            } else {
                (list, false)
            }
        },
        Err(_) => (list, false),
    }
}

/// The body of an HTTP response, where its status is 200 OK.
pub fn http_contents(status: u32, body: Vec<u8>) -> (r: Result<Vec<u8>, BlockListError>)
    ensures
        r is Ok <==> status == 200,
        r matches Ok(v) ==> v@ == body@,
        r matches Err(e) ==> e.kind is HttpNotOk,
{
    if status != 200 {
        return Err(BlockListError::http_not_ok());
    }
    Ok(body)
}

impl BlockLists {
    pub fn new() -> (r: BlockLists)
        ensures
            r@ == Seq::<BlockListView>::empty(),
            lists_well_formed(r@),
    {
        let lists = Vec::new();
        let r = BlockLists { lists };
        assert(r@ =~= Seq::<BlockListView>::empty());
        r
    }

    /// Adds the list read from a source, where it has at least one entry.
    fn add_list(
        &mut self,
        kind: BlockListKind,
        format: &BlockListFormat,
        path: Option<String>,
        url: Option<String>,
        contents: &[u8],
    ) -> (r: Result<(), BlockListError>)
        ensures
            r is Ok <==> entries_of(contents@, *format).len() > 0,
            r is Ok ==> final(self)@ == old(self)@.push(
                loaded_list(kind, *format, opt_text(path), opt_text(url), contents@),
            ),
            r matches Err(e) ==> final(self)@ == old(self)@ && e.kind is NoEntries,
            lists_well_formed(old(self)@) ==> lists_well_formed(final(self)@),
    {
        let entries = parse_entries(contents, format);
        if entries.len() == 0 {
            return Err(BlockListError::no_entries());
        }
        let list = BlockList { kind, format: *format, path, url, entries };
        self.lists.push(list);
        assert(self@ =~= old(self)@.push(list@));
        Ok(())
    }

    /// Adds the list read from the file at `path`, given the file's bytes.
    pub fn add_file(&mut self, path: &String, format: &BlockListFormat, contents: &[u8]) -> (r:
        Result<(), BlockListError>)
        ensures
            r is Ok <==> entries_of(contents@, *format).len() > 0,
            r is Ok ==> final(self)@ == old(self)@.push(
                loaded_list(BlockListKind::File, *format, Some(path@), None, contents@),
            ),
            r matches Err(e) ==> final(self)@ == old(self)@ && e.kind is NoEntries,
            lists_well_formed(old(self)@) ==> lists_well_formed(final(self)@),
    {
        self.add_list(BlockListKind::File, format, Some(path.clone()), None, contents)
    }

    /// Adds the list fetched from `url`, given the response's status and body.
    pub fn add_http(&mut self, url: &String, format: &BlockListFormat, status: u32, body: Vec<u8>) -> (r:
        Result<(), BlockListError>)
        ensures
            r is Ok <==> status == 200 && entries_of(body@, *format).len() > 0,
            r is Ok ==> final(self)@ == old(self)@.push(
                loaded_list(BlockListKind::Http, *format, None, Some(url@), body@),
            ),
            r matches Err(e) ==> final(self)@ == old(self)@ && (if status != 200 {
                e.kind is HttpNotOk
            } else {
                e.kind is NoEntries
            }),
            lists_well_formed(old(self)@) ==> lists_well_formed(final(self)@),
    {
        let contents = match http_contents(status, body) {
            Ok(c) => c,
            Err(e) => return Err(e),
        };
        self.add_list(BlockListKind::Http, format, None, Some(url.clone()), contents.as_slice())
    }

    /// Replaces each list with what a fresh fetch of its source gave
    /// (`fetched[i]` for list `i`). A list whose fetch failed, or gave no
    /// entry, is kept as it was. Fails where no list was refreshed.
    pub fn reload_lists(&mut self, fetched: Vec<Result<Vec<u8>, BlockListError>>) -> (r: Result<
        (),
        BlockListError,
    >)
        requires
            fetched@.len() == old(self)@.len(),
        ensures
            final(self)@ == reloaded(old(self)@, fetched_texts(fetched@)),
            r is Ok <==> reload_succeeds(old(self)@, fetched_texts(fetched@)),
            r matches Err(e) ==> e.kind is NoEntries,
            lists_well_formed(old(self)@) ==> lists_well_formed(final(self)@),
    {
        let ghost before = self@;
        let ghost fm = fetched_texts(fetched@);
        let mut old_lists: Vec<BlockList> = Vec::new();
        std::mem::swap(&mut self.lists, &mut old_lists);
        let ghost taken = old_lists@;
        assert(self@ =~= Seq::<BlockListView>::empty());
        let mut updated = false;
        let n = fetched.len();
        let mut i: usize = 0;
        for list in it: old_lists.into_iter()
            invariant
                it.seq() == taken,
                i == it.index(),
                taken.map_values(|l: BlockList| l@) == before,
                fm == fetched_texts(fetched@),
                fetched@.len() == before.len(),
                n == fetched@.len(),
                self@ == reloaded(before, fm).subrange(0, i as int),
                updated <==> exists|k: int| 0 <= k < i && #[trigger] refreshes(before[k], fm[k]),
        {
            assert(taken[i as int]@ == before[i as int]);
            assert(fm[i as int] == fetched_text(fetched@[i as int]));
            let ghost prev = self@;
            let (l, fresh) = refresh_list(list, &fetched[i]);
            if fresh {
                updated = true;
            }
            self.lists.push(l);
            proof {
                assert(self@ =~= prev.push(l@));
                assert(self@ =~= reloaded(before, fm).subrange(0, i + 1));
                if fresh {
                    assert(refreshes(before[i as int], fm[i as int]));
                }
            }
            i += 1;
        }
        assert(self@ =~= reloaded(before, fm));
        assert(lists_well_formed(before) ==> lists_well_formed(self@));
        if !updated {
            return Err(BlockListError::no_entries());
        }
        Ok(())
    }

    /// Whether `hostname` is, exactly, an entry of one of the lists.
    pub fn is_blocked(&self, hostname: &String) -> (r: bool)
        ensures
            r == blocks(self@, hostname@),
    {
        let mut i: usize = 0;
        while i < self.lists.len()
            invariant
                i <= self.lists@.len(),
                forall|a: int, j: int|
                    0 <= a < i && 0 <= j < self@[a].entries.len() ==> #[trigger] self@[a].entries[j]
                        != hostname@,
            decreases self.lists@.len() - i,
        {
            let list = &self.lists[i];
            let mut j: usize = 0;
            while j < list.entries.len()
                invariant
                    i < self.lists@.len(),
                    list == self.lists@[i as int],
                    j <= list.entries@.len(),
                    forall|k: int| 0 <= k < j ==> #[trigger] self@[i as int].entries[k] != hostname@,
                decreases list.entries@.len() - j,
            {
                if list.entries[j] == *hostname {
                    assert(self@[i as int].entries[j as int] == hostname@);
                    return true;
                }
                j += 1;
            }
            i += 1;
        }
        false
    }
}

/// Adding a list blocks exactly what was blocked before and the entries of
/// the new list: a name that only the second list holds is blocked once it
/// is added, and nothing blocked before stops being blocked.
pub proof fn lemma_added_list_blocks(lists: Seq<BlockListView>, added: BlockListView, h: Seq<char>)
    ensures
        blocks(lists.push(added), h) <==> (blocks(lists, h) || added.entries.contains(h)),
{
    let all = lists.push(added);
    if blocks(lists, h) {
        let (i, j) = choose|i: int, j: int|
            0 <= i < lists.len() && 0 <= j < lists[i].entries.len() && #[trigger] lists[i].entries[j]
                == h;
        assert(all[i] == lists[i]);
        assert(all[i].entries[j] == h);
    }
    if added.entries.contains(h) {
        let j = choose|j: int| 0 <= j < added.entries.len() && added.entries[j] == h;
        assert(all[lists.len() as int].entries[j] == h);
    }
    if blocks(all, h) {
        let (i, j) = choose|i: int, j: int|
            0 <= i < all.len() && 0 <= j < all[i].entries.len() && #[trigger] all[i].entries[j] == h;
        if i < lists.len() {
            assert(lists[i].entries[j] == h);
        } else {
            assert(added.entries[j] == h);
        }
    }
}

/// In a reload where one list's fetch fails (or gives no entry) and another
/// list is refreshed, the failed list keeps every entry it had, each of
/// them is still blocked, and the reload succeeds.
pub proof fn lemma_reload_keeps_failed_list(
    old: Seq<BlockListView>,
    f: Seq<Option<Seq<u8>>>,
    failed: int,
    fresh: int,
    h: Seq<char>,
)
    requires
        f.len() == old.len(),
        0 <= failed < old.len(),
        0 <= fresh < old.len(),
        !refreshes(old[failed], f[failed]),
        refreshes(old[fresh], f[fresh]),
        old[failed].entries.contains(h),
    ensures
        reloaded(old, f)[failed] == old[failed],
        blocks(reloaded(old, f), h),
        reload_succeeds(old, f),
{
    let new = reloaded(old, f);
    let j = choose|j: int| 0 <= j < old[failed].entries.len() && old[failed].entries[j] == h;
    assert(new[failed].entries[j] == h);
}

/// A reload in which no list is refreshed fails, and leaves every list,
/// and so what is blocked, as it was.
pub proof fn lemma_reload_all_failed(old: Seq<BlockListView>, f: Seq<Option<Seq<u8>>>)
    requires
        f.len() == old.len(),
        forall|i: int| 0 <= i < old.len() ==> !#[trigger] refreshes(old[i], f[i]),
    ensures
        !reload_succeeds(old, f),
        reloaded(old, f) == old,
        forall|h: Seq<char>| blocks(reloaded(old, f), h) == blocks(old, h),
{
    assert(reloaded(old, f) =~= old);
}

} // verus!
