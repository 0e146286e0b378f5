//! The ordered sequence of rebase instruction lines, the current selection,
//! and the textual codec for single lines.

use vstd::prelude::*;

use crate::line_type::{token_of, LineType};

verus! {

/// One rebase instruction. `content` is the hash for a pick line, a command
/// for an exec line, a label for label/reset/merge lines and a reference for
/// an update-ref line. `comment` is only ever non-empty for pick lines, where
/// it carries the one-line commit summary.
pub struct TodoLine {
    pub line_type: LineType,
    pub content: String,
    pub comment: String,
}

/// The mathematical shape of a [`TodoLine`]: its type and the character
/// sequences of its content and comment.
pub open spec fn line_model(line: TodoLine) -> (LineType, Seq<char>, Seq<char>) {
    (line.line_type, line.content@, line.comment@)
}

/// The canonical text of a line: the token, a space, and the content; a pick
/// line additionally carries a space and the comment, so a pick with an empty
/// comment keeps a trailing space. That quirk is part of the format and is
/// reproduced, not trimmed.
pub open spec fn line_text(line: TodoLine) -> Seq<char> {
    if line.line_type == LineType::Pick {
        token_of(line.line_type) + " "@ + line.content@ + " "@ + line.comment@
    } else {
        token_of(line.line_type) + " "@ + line.content@
    }
}

/// Index of the first space character of `s` at or after `i`, or `s.len()`
/// if there is none.
pub open spec fn first_space_at(s: Seq<char>, i: int) -> int
    decreases s.len() - i when 0 <= i <= s.len()
{
    if i >= s.len() {
        s.len() as int
    } else if s[i] == ' ' {
        i
    } else {
        first_space_at(s, i + 1)
    }
}

/// The word before the first space of `s`, and everything after that space
/// (empty when there is no space).
pub open spec fn split_first_space(s: Seq<char>) -> (Seq<char>, Seq<char>) {
    let k = first_space_at(s, 0);
    if k < s.len() {
        (s.subrange(0, k), s.subrange(k + 1, s.len() as int))
    } else {
        (s, Seq::empty())
    }
}

/// What parsing a raw text line yields: the line type, content and comment of
/// the line it denotes, or nothing when the leading token is not a persisted
/// line type. The `<cancel>` sentinel is never parsed.
pub open spec fn spec_parse(s: Seq<char>) -> Option<(LineType, Seq<char>, Seq<char>)> {
    let (token, rest) = split_first_space(s);
    if token == token_of(LineType::Pick) {
        let (hash, comment) = split_first_space(rest);
        Some((LineType::Pick, hash, comment))
    } else if token == token_of(LineType::Exec) {
        Some((LineType::Exec, rest, Seq::empty()))
    } else if token == token_of(LineType::Label) {
        Some((LineType::Label, rest, Seq::empty()))
    } else if token == token_of(LineType::Merge) {
        Some((LineType::Merge, rest, Seq::empty()))
    } else if token == token_of(LineType::Reset) {
        Some((LineType::Reset, rest, Seq::empty()))
    } else if token == token_of(LineType::UpdateRef) {
        Some((LineType::UpdateRef, rest, Seq::empty()))
    } else {
        None
    }
}

/// String equality through the character views.
fn str_eq(a: &str, b: &str) -> (r: bool)
    ensures
        r == (a@ == b@),
{
    let left = String::from_str(a);
    let right = String::from_str(b);
    left == right
}

/// Index of the first space of `s`, or its character length if there is none.
fn find_space(s: &str) -> (k: usize)
    ensures
        k == first_space_at(s@, 0),
        k <= s@.len(),
{
    let n = s.unicode_len();
    let mut i: usize = 0;
    while i < n
        invariant
            i <= n,
            n == s@.len(),
            first_space_at(s@, 0) == first_space_at(s@, i as int),
        decreases n - i,
    {
        if s.get_char(i) == ' ' {
            proof {
                assert(first_space_at(s@, i as int) == i);
            }
            return i;
        }
        proof {
            assert(first_space_at(s@, i as int) == first_space_at(s@, i + 1));
        }
        i += 1;
    }
    n
}

impl Clone for TodoLine {
    fn clone(&self) -> (r: Self)
        ensures
            r == *self,
    {
        TodoLine {
            line_type: self.line_type,
            content: self.content.clone(),
            comment: self.comment.clone(),
        }
    }
}

impl TodoLine {
    /// A line of the given type and content, with an empty comment.
    pub fn new(line_type: LineType, content: String) -> (r: TodoLine)
        ensures
            r.line_type == line_type,
            r.content == content,
            r.comment@ == Seq::<char>::empty(),
    {
        TodoLine { line_type, content, comment: String::new() }
    }

    /// The canonical text of this line.
    pub fn to_text(&self) -> (r: String)
        ensures
            r@ == line_text(*self),
    {
        let mut out = self.line_type.to_string();
        out.append(" ");
        out.append(self.content.as_str());
        if let LineType::Pick = self.line_type {
            out.append(" ");
            out.append(self.comment.as_str());
        }
        out
    }

    /// Parse one raw text line; yields nothing when the leading token names
    /// no persisted line type.
    pub fn parse(s: &str) -> (r: Option<TodoLine>)
        ensures
            match r {
                Some(line) => spec_parse(s@) == Some(line_model(line)),
                None => spec_parse(s@) is None,
            },
    {
        let n = s.unicode_len();
        let k = find_space(s);
        let token = s.substring_char(0, k);
        let rest = if k < n {
            s.substring_char(k + 1, n)
        } else {
            s.substring_char(n, n)
        };
        proof {
            if k == n {
                assert(token@ =~= split_first_space(s@).0);
                assert(rest@ =~= split_first_space(s@).1);
            }
        }
        if str_eq(token, "pick") {
            let m = find_space(rest);
            let rest_n = rest.unicode_len();
            let hash = rest.substring_char(0, m);
            let comment = if m < rest_n {
                rest.substring_char(m + 1, rest_n)
            } else {
                rest.substring_char(rest_n, rest_n)
            };
            proof {
                if m == rest_n {
                    assert(hash@ =~= split_first_space(rest@).0);
                    assert(comment@ =~= split_first_space(rest@).1);
                }
            }
            Some(TodoLine {
                line_type: LineType::Pick,
                content: String::from_str(hash),
                comment: String::from_str(comment),
            })
        } else {
            let content = String::from_str(rest);
            if str_eq(token, "exec") {
                Some(TodoLine::new(LineType::Exec, content))
            } else if str_eq(token, "label") {
                Some(TodoLine::new(LineType::Label, content))
            } else if str_eq(token, "merge") {
                Some(TodoLine::new(LineType::Merge, content))
            } else if str_eq(token, "reset") {
                Some(TodoLine::new(LineType::Reset, content))
            } else if str_eq(token, "update-ref") {
                Some(TodoLine::new(LineType::UpdateRef, content))
            } else {
                None
            }
        }
    }
}

/// Index of the first space of `s` at or after `i` is `k`, when no space
/// stands before `k` and `k` is a space or the end.
proof fn lemma_first_space_from(s: Seq<char>, i: int, k: int)
    requires
        0 <= i <= k <= s.len(),
        forall|j: int| i <= j < k ==> s[j] != ' ',
        k == s.len() || s[k] == ' ',
    ensures
        first_space_at(s, i) == k,
    decreases k - i,
{
    if i < k {
        lemma_first_space_from(s, i + 1, k);
    }
}

/// The token of every persisted line type is free of spaces, so it reads
/// back as the word before the first space of the line's text.
proof fn lemma_token_no_space(line_type: LineType)
    requires
        line_type != LineType::Cancel,
    ensures
        forall|j: int| 0 <= j < token_of(line_type).len() ==> token_of(line_type)[j] != ' ',
        token_of(line_type).len() > 0,
{
    reveal_strlit("pick");
    reveal_strlit("exec");
    reveal_strlit("label");
    reveal_strlit("merge");
    reveal_strlit("reset");
    reveal_strlit("update-ref");
}

/// Parsing the canonical text of a line yields the line back: the codec
/// round-trips for every persisted line type. A pick line's hash must hold
/// no space, and only a pick line carries a comment; the pick line with an
/// empty comment round-trips too, trailing space and all.
pub proof fn lemma_parse_to_text_round_trip(line: TodoLine)
    requires
        line.line_type != LineType::Cancel,
        line.line_type == LineType::Pick ==> forall|i: int|
            0 <= i < line.content@.len() ==> line.content@[i] != ' ',
        line.line_type != LineType::Pick ==> line.comment@.len() == 0,
    ensures
        spec_parse(line_text(line)) == Some(line_model(line)),
{
    reveal_strlit("pick");
    reveal_strlit("exec");
    reveal_strlit("label");
    reveal_strlit("merge");
    reveal_strlit("reset");
    reveal_strlit("update-ref");
    reveal_strlit("<cancel>");
    reveal_strlit(" ");
    let s = line_text(line);
    let token = token_of(line.line_type);
    lemma_token_no_space(line.line_type);
    assert(s[token.len() as int] == ' ');
    lemma_first_space_from(s, 0, token.len() as int);
    let k = first_space_at(s, 0);
    assert(s.subrange(0, k) =~= token);
    if line.line_type == LineType::Pick {
        let rest = s.subrange(k + 1, s.len() as int);
        assert(rest =~= line.content@ + " "@ + line.comment@);
        assert(rest[line.content@.len() as int] == ' ');
        lemma_first_space_from(rest, 0, line.content@.len() as int);
        let m = first_space_at(rest, 0);
        assert(rest.subrange(0, m) =~= line.content@);
        assert(rest.subrange(m + 1, rest.len() as int) =~= line.comment@);
    } else {
        let rest = s.subrange(k + 1, s.len() as int);
        assert(rest =~= line.content@);
    }
}

/// What the selection invariant means: after any sequence of operations on
/// a well-formed file the selected index stays inside the file, or is zero
/// while the file is empty. Every constructor establishes `well_formed` and
/// every mutation re-establishes it, so this holds at all times.
pub proof fn lemma_selection_always_valid(f: TodoFile)
    requires
        f.well_formed(),
    ensures
        f.spec_len() == 0 ==> f.spec_selected() == 0,
        f.spec_len() > 0 ==> 0 <= f.spec_selected() < f.spec_len(),
{
}

/// The models of raw text lines that parse, in order; lines that do not
/// parse are dropped.
pub open spec fn spec_parsed_lines(texts: Seq<Seq<char>>) -> Seq<(LineType, Seq<char>, Seq<char>)>
    decreases texts.len(),
{
    if texts.len() == 0 {
        Seq::empty()
    } else {
        let front = spec_parsed_lines(texts.drop_last());
        match spec_parse(texts.last()) {
            Some(m) => front.push(m),
            None => front,
        }
    }
}

/// The lines that remain after removing the closed index range named by
/// `start` and `end`, in either order, both clamped to the last line. An
/// empty sequence is left unchanged.
pub open spec fn spec_remove_range(lines: Seq<TodoLine>, start: int, end: int) -> Seq<TodoLine> {
    if lines.len() == 0 {
        lines
    } else {
        let lo = if start <= end { start } else { end };
        let hi = if start <= end { end } else { start };
        let s = if lo < lines.len() - 1 { lo } else { lines.len() - 1 };
        let e = if hi < lines.len() - 1 { hi } else { lines.len() - 1 };
        lines.subrange(0, s) + lines.subrange(e + 1, lines.len() as int)
    }
}

/// The selection clamped to a file of `len` lines: unchanged while valid,
/// pulled back to the last line when past the end, and zero for an empty
/// file.
pub open spec fn spec_clamp(index: int, len: int) -> int {
    if len == 0 {
        0
    } else if index < len {
        index
    } else {
        len - 1
    }
}

/// The ordered todo lines and the selected line index. The selection is
/// always a valid index, or zero while the file is empty; every mutation
/// re-establishes that before it returns.
pub struct TodoFile {
    lines: Vec<TodoLine>,
    selected_line_index: usize,
}

impl TodoFile {
    /// The sequence of lines.
    pub closed spec fn spec_lines(&self) -> Seq<TodoLine> {
        self.lines@
    }

    /// The selected line index.
    pub closed spec fn spec_selected(&self) -> int {
        self.selected_line_index as int
    }

    /// The number of lines.
    pub open spec fn spec_len(&self) -> int {
        self.spec_lines().len() as int
    }

    /// The selection invariant: a valid index into a non-empty file, or zero.
    pub open spec fn well_formed(&self) -> bool {
        if self.spec_len() == 0 {
            self.spec_selected() == 0
        } else {
            0 <= self.spec_selected() < self.spec_len()
        }
    }

    /// An empty file.
    pub fn new() -> (f: TodoFile)
        ensures
            f.well_formed(),
            f.spec_lines() == Seq::<TodoLine>::empty(),
            f.spec_selected() == 0,
    {
        let f = TodoFile { lines: Vec::new(), selected_line_index: 0 };
        proof {
            assert(f.spec_lines() =~= Seq::<TodoLine>::empty());
        }
        f
    }

    /// A file seeded from raw text lines, as the persistence collaborator
    /// hands them over: lines that parse are kept in order, the rest are
    /// dropped, and the first line is selected.
    pub fn from_text_lines(input: &Vec<String>) -> (f: TodoFile)
        ensures
            f.well_formed(),
            f.spec_selected() == 0,
            f.spec_lines().map_values(|l: TodoLine| line_model(l)) == spec_parsed_lines(
                input@.map_values(|s: String| s@),
            ),
    {
        let ghost texts = input@.map_values(|s: String| s@);
        let mut lines: Vec<TodoLine> = Vec::new();
        let n = input.len();
        let mut i: usize = 0;
        proof {
            assert(lines@.map_values(|l: TodoLine| line_model(l)) =~= spec_parsed_lines(
                texts.subrange(0, 0),
            ));
        }
        while i < n
            invariant
                i <= n,
                n == input@.len(),
                texts == input@.map_values(|s: String| s@),
                lines@.map_values(|l: TodoLine| line_model(l)) == spec_parsed_lines(
                    texts.subrange(0, i as int),
                ),
            decreases n - i,
        {
            let ghost done = texts.subrange(0, i as int);
            let ghost next = texts.subrange(0, i + 1);
            proof {
                assert(next.drop_last() =~= done);
                assert(next.last() == texts[i as int]);
            }
            match TodoLine::parse(input[i].as_str()) {
                Some(line) => {
                    let ghost prev = lines@;
                    lines.push(line);
                    proof {
                        assert(lines@.map_values(|l: TodoLine| line_model(l)) =~= prev.map_values(
                            |l: TodoLine| line_model(l),
                        ).push(line_model(line)));
                    }
                },
                None => {},
            }
            i += 1;
        }
        proof {
            assert(texts.subrange(0, n as int) =~= texts);
        }
        TodoFile { lines, selected_line_index: 0 }
    }

    /// The canonical text of every line, in order, ready to be joined into
    /// the serialized todo file.
    pub fn to_text_lines(&self) -> (r: Vec<String>)
        ensures
            r@.len() == self.spec_len(),
            forall|i: int|
                0 <= i < r@.len() ==> (#[trigger] r@[i])@ == line_text(self.spec_lines()[i]),
    {
        let mut r: Vec<String> = Vec::new();
        let len = self.lines.len();
        let mut i: usize = 0;
        while i < len
            invariant
                i <= len,
                len == self.spec_len(),
                r@.len() == i,
                forall|j: int|
                    0 <= j < i ==> (#[trigger] r@[j])@ == line_text(self.spec_lines()[j]),
            decreases len - i,
        {
            r.push(self.lines[i].to_text());
            i += 1;
        }
        r
    }

    /// The number of lines.
    pub fn len(&self) -> (r: usize)
        ensures
            r == self.spec_len(),
    {
        self.lines.len()
    }

    /// Whether the file holds no lines.
    pub fn is_empty(&self) -> (r: bool)
        ensures
            r == (self.spec_len() == 0),
    {
        self.lines.is_empty()
    }

    /// The line at `index`, or nothing for an out-of-range request.
    pub fn get_line(&self, index: usize) -> (r: Option<&TodoLine>)
        ensures
            match r {
                Some(line) => index < self.spec_len() && *line == self.spec_lines()[index as int],
                None => index >= self.spec_len(),
            },
    {
        if index < self.lines.len() {
            Some(&self.lines[index])
        } else {
            None
        }
    }

    /// The selected line index; zero while the file is empty.
    pub fn get_selected_line_index(&self) -> (r: usize)
        ensures
            r == self.spec_selected(),
    {
        self.selected_line_index
    }

    /// Select `index`, clamped to the valid range.
    pub fn set_selected_index(&mut self, index: usize)
        requires
            old(self).well_formed(),
        ensures
            final(self).well_formed(),
            final(self).spec_lines() == old(self).spec_lines(),
            final(self).spec_selected() == spec_clamp(index as int, old(self).spec_len()),
    {
        let len = self.lines.len();
        self.selected_line_index = if len == 0 {
            0
        } else if index < len {
            index
        } else {
            len - 1
        };
    }

    /// Insert `line` before `index`, clamped to the end of the file; the
    /// selection is unchanged and stays valid.
    pub fn insert_line(&mut self, index: usize, line: TodoLine)
        requires
            old(self).well_formed(),
        ensures
            final(self).well_formed(),
            final(self).spec_lines() == old(self).spec_lines().insert(
                spec_clamp(index as int, old(self).spec_len() + 1),
                line,
            ),
            final(self).spec_selected() == old(self).spec_selected(),
    {
        let len = self.lines.len();
        let at = if index <= len {
            index
        } else {
            len
        };
        self.lines.insert(at, line);
    }

    /// Remove the line at `index`, clamped to the last line; an empty file is
    /// left unchanged. The selection is re-clamped.
    pub fn remove_line(&mut self, index: usize)
        requires
            old(self).well_formed(),
        ensures
            final(self).well_formed(),
            final(self).spec_lines() == spec_remove_range(
                old(self).spec_lines(),
                index as int,
                index as int,
            ),
            final(self).spec_selected() == spec_clamp(
                old(self).spec_selected(),
                final(self).spec_len(),
            ),
    {
        self.remove_line_range(index, index);
    }

    /// Remove the closed range of lines between `start_index` and
    /// `end_index`, in either order, both clamped to the last line; an empty
    /// file is left unchanged. The selection is re-clamped.
    pub fn remove_line_range(&mut self, start_index: usize, end_index: usize)
        requires
            old(self).well_formed(),
        ensures
            final(self).well_formed(),
            final(self).spec_lines() == spec_remove_range(
                old(self).spec_lines(),
                start_index as int,
                end_index as int,
            ),
            final(self).spec_selected() == spec_clamp(
                old(self).spec_selected(),
                final(self).spec_len(),
            ),
    {
        let len = self.lines.len();
        if len == 0 {
            proof {
                assert(final(self).spec_lines() =~= spec_remove_range(
                    old(self).spec_lines(),
                    start_index as int,
                    end_index as int,
                ));
            }
            return;
        }
        let lo = if start_index <= end_index {
            start_index
        } else {
            end_index
        };
        let hi = if start_index <= end_index {
            end_index
        } else {
            start_index
        };
        let s = if lo < len - 1 {
            lo
        } else {
            len - 1
        };
        let e = if hi < len - 1 {
            hi
        } else {
            len - 1
        };
        let count = e - s + 1;
        let mut removed: usize = 0;
        while removed < count
            invariant
                s + count <= len,
                removed <= count,
                len == old(self).spec_len(),
                s == spec_remove_range_lo(old(self).spec_lines(), start_index as int, end_index as int),
                s + count - 1 == spec_remove_range_hi(
                    old(self).spec_lines(),
                    start_index as int,
                    end_index as int,
                ),
                self.lines@ =~= old(self).spec_lines().subrange(0, s as int) + old(
                    self,
                ).spec_lines().subrange(s + removed, len as int),
                self.selected_line_index == old(self).selected_line_index,
            decreases count - removed,
        {
            self.lines.remove(s);
            proof {
                assert(self.lines@ =~= old(self).spec_lines().subrange(0, s as int) + old(
                    self,
                ).spec_lines().subrange(s + removed + 1, len as int));
            }
            removed += 1;
        }
        let new_len = self.lines.len();
        if self.selected_line_index >= new_len {
            self.selected_line_index = if new_len == 0 {
                0
            } else {
                new_len - 1
            };
        }
        proof {
            assert(self.lines@ =~= spec_remove_range(
                old(self).spec_lines(),
                start_index as int,
                end_index as int,
            ));
        }
    }
}

/// The clamped lower bound of the range that `spec_remove_range` removes.
pub open spec fn spec_remove_range_lo(lines: Seq<TodoLine>, start: int, end: int) -> int {
    let lo = if start <= end { start } else { end };
    if lo < lines.len() - 1 { lo } else { lines.len() - 1 }
}

/// The clamped upper bound of the range that `spec_remove_range` removes.
pub open spec fn spec_remove_range_hi(lines: Seq<TodoLine>, start: int, end: int) -> int {
    let hi = if start <= end { end } else { start };
    if hi < lines.len() - 1 { hi } else { lines.len() - 1 }
}

} // verus!
