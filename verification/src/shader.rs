//! Deciding whether a WGSL file is far enough along to be compiled.

use vstd::prelude::*;

verus! {

/// Length of the first line of `text`, without what ends it.
pub open spec fn line_end(text: Seq<char>) -> int
    decreases text.len(),
{
    if text.len() == 0 || text[0] == '\n' {
        0
    } else {
        1 + line_end(text.drop_first())
    }
}

/// `line` without the carriage return of a `\r\n` line ending.
pub open spec fn chop_cr(line: Seq<char>) -> Seq<char> {
    if line.len() > 0 && line.last() == '\r' {
        line.drop_last()
    } else {
        line
    }
}

/// The lines of `text`. A line ends at `\n` or `\r\n`; the ending of the last
/// line is optional.
pub open spec fn lines(text: Seq<char>) -> Seq<Seq<char>>
    decreases text.len(),
{
    let end = line_end(text);
    if text.len() == 0 {
        seq![]
    } else if 0 <= end < text.len() {
        seq![chop_cr(text.take(end))] + lines(text.skip(end + 1))
    } else {
        seq![text]
    }
}

/// `line` up to its first `//`.
pub open spec fn uncomment(line: Seq<char>) -> Seq<char>
    decreases line.len(),
{
    if line.len() >= 2 && line[0] == '/' && line[1] == '/' {
        seq![]
    } else if line.len() == 0 {
        seq![]
    } else {
        seq![line[0]] + uncomment(line.drop_first())
    }
}

/// The lines of a shader without their comments, with a newline between each
/// and the next.
pub open spec fn join_code(lines: Seq<Seq<char>>) -> Seq<char>
    decreases lines.len(),
{
    if lines.len() == 0 {
        seq![]
    } else if lines.len() == 1 {
        uncomment(lines[0])
    } else {
        uncomment(lines[0]) + seq!['\n'] + join_code(lines.drop_first())
    }
}

/// The part of a shader that is not in a `//` comment.
pub open spec fn code_of(source: Seq<char>) -> Seq<char> {
    join_code(lines(source))
}

/// `part` stands in `text` at position `at`.
pub open spec fn occurs_at(text: Seq<char>, part: Seq<char>, at: int) -> bool {
    0 <= at && at + part.len() <= text.len() && text.subrange(at, at + part.len()) == part
}

/// `part` stands somewhere in `text`.
pub open spec fn occurs(text: Seq<char>, part: Seq<char>) -> bool {
    exists|at: int| occurs_at(text, part, at)
}

/// `source` declares `tag` outside of a `//` comment.
pub open spec fn declares(source: Seq<char>, tag: Seq<char>) -> bool {
    occurs(code_of(source), tag)
}

/// Position of the first of `tags` that `source` does not declare, or the
/// number of tags when it declares them all.
pub open spec fn first_missing(source: Seq<char>, tags: Seq<Seq<char>>) -> int
    decreases tags.len(),
{
    if tags.len() == 0 || !declares(source, tags[0]) {
        0
    } else {
        1 + first_missing(source, tags.drop_first())
    }
}

/// What is reported of a shader file that cannot be read.
pub open spec fn unreadable_notice(path: Seq<char>, error: Seq<char>) -> Seq<char> {
    path + ": "@ + error + " — that pass is disabled"@
}

/// What is reported of a shader file without a needed entry point.
pub open spec fn missing_notice(path: Seq<char>, tag: Seq<char>) -> Seq<char> {
    path + ": no "@ + tag + " entry point yet — that pass is disabled"@
}

/// The texts of a file that was read, or of the error on reading it.
pub open spec fn result_text(read: Result<String, String>) -> Result<Seq<char>, Seq<char>> {
    match read {
        Ok(text) => Ok(text@),
        Err(error) => Err(error@),
    }
}

/// The texts of a list of strings.
pub open spec fn texts(strings: Seq<&str>) -> Seq<Seq<char>> {
    strings.map_values(|s: &str| s@)
}

/// The source to compile, or the notice that says why there is none.
pub open spec fn load_outcome(
    path: Seq<char>,
    read: Result<Seq<char>, Seq<char>>,
    tags: Seq<Seq<char>>,
) -> Result<Seq<char>, Seq<char>> {
    match read {
        Err(error) => Err(unreadable_notice(path, error)),
        Ok(source) => {
            let missing = first_missing(source, tags);
            if missing < tags.len() {
                Err(missing_notice(path, tags[missing]))
            } else {
                Ok(source)
            }
        },
    }
}

/// The characters of `text`.
fn chars_of(text: &str) -> (chars: Vec<char>)
    ensures
        chars@ == text@,
{
    let mut chars: Vec<char> = Vec::new();
    for c in it: text.chars()
        invariant
            chars@ == it.seq().take(it.index()),
            it.seq() == text@,
    {
        chars.push(c);
    }
    assert(chars@ == text@);
    chars
}

/// What is still to be written after some lines of a shader, when `rest` is
/// the text after those lines.
spec fn code_tail(first: bool, rest: Seq<char>) -> Seq<char> {
    if first {
        code_of(rest)
    } else if rest.len() == 0 {
        seq![]
    } else {
        seq!['\n'] + code_of(rest)
    }
}

proof fn lemma_line_end(text: Seq<char>, end: int)
    requires
        0 <= end <= text.len(),
        forall|i: int| 0 <= i < end ==> text[i] != '\n',
        end == text.len() || text[end] == '\n',
    ensures
        line_end(text) == end,
    decreases end,
{
    if end > 0 {
        let rest = text.drop_first();
        assert forall|i: int| 0 <= i < end - 1 implies rest[i] != '\n' by {
            assert(rest[i] == text[i + 1]);
        }
        lemma_line_end(rest, end - 1);
    }
}

proof fn lemma_line_end_bounds(text: Seq<char>)
    ensures
        0 <= line_end(text) <= text.len(),
    decreases text.len(),
{
    if text.len() > 0 && text[0] != '\n' {
        lemma_line_end_bounds(text.drop_first());
    }
}

/// The code of a text is that of its first line and then that of the rest.
proof fn lemma_code_first_line(rest: Seq<char>, line: Seq<char>, after: Seq<char>)
    requires
        rest.len() > 0,
        lines(rest) == seq![line] + lines(after),
    ensures
        code_of(rest) == uncomment(line) + code_tail(false, after),
{
    lemma_line_end_bounds(after);
    let ls = lines(rest);
    assert(ls.drop_first() =~= lines(after));
    assert(ls[0] == line);
    if after.len() == 0 {
        assert(uncomment(line) + seq![] =~= uncomment(line));
    } else {
        assert(uncomment(line) + seq!['\n'] + code_of(after) =~= uncomment(line) + (seq!['\n']
            + code_of(after)));
    }
}

/// The part of a shader that is not in a `//` comment: each line up to its
/// first `//`, with a newline between each line and the next.
fn strip_comments(source: &Vec<char>) -> (code: Vec<char>)
    ensures
        code@ == code_of(source@),
{
    let mut code: Vec<char> = Vec::new();
    let mut pos: usize = 0;
    let mut first: bool = true;
    assert(source@.skip(0) =~= source@);
    while pos < source.len()
        invariant
            pos <= source.len(),
            code_of(source@) == code@ + code_tail(first, source@.skip(pos as int)),
        decreases source.len() - pos,
    {
        let ghost rest = source@.skip(pos as int);
        let ghost before = code@;

        let mut end: usize = pos;
        while end < source.len() && source[end] != '\n'
            invariant
                pos <= end <= source.len(),
                forall|i: int| pos <= i < end ==> source@[i] != '\n',
            decreases source.len() - end,
        {
            end = end + 1;
        }
        let ended: bool = end < source.len();
        let stop: usize = if ended && end > pos && source[end - 1] == '\r' {
            end - 1
        } else {
            end
        };
        let next: usize = if ended {
            end + 1
        } else {
            end
        };
        let ghost line = source@.subrange(pos as int, stop as int);
        let ghost after = source@.skip(next as int);
        proof {
            assert forall|i: int| 0 <= i < end - pos implies rest[i] != '\n' by {
                assert(rest[i] == source@[i + pos]);
            }
            lemma_line_end(rest, end - pos);
            if ended {
                assert(rest.take(end - pos) =~= source@.subrange(pos as int, end as int));
                assert(chop_cr(rest.take(end - pos)) =~= line);
                assert(rest.skip(end - pos + 1) =~= after);
            } else {
                assert(rest =~= line);
                assert(lines(rest) =~= seq![line] + lines(after));
            }
            lemma_code_first_line(rest, line, after);
        }

        if !first {
            code.push('\n');
        }
        let ghost started = code@;
        let mut at: usize = pos;
        assert(line =~= source@.subrange(at as int, stop as int));
        while at < stop && !(source[at] == '/' && at + 1 < stop && source[at + 1] == '/')
            invariant
                pos <= at <= stop <= source.len(),
                code@ + uncomment(source@.subrange(at as int, stop as int)) == started + uncomment(
                    line,
                ),
            decreases stop - at,
        {
            let ghost left = source@.subrange(at as int, stop as int);
            proof {
                assert(left.drop_first() =~= source@.subrange(at + 1, stop as int));
                assert(left[0] == source@[at as int]);
                if left.len() >= 2 {
                    assert(left[1] == source@[at + 1]);
                }
                assert(code@ + uncomment(left) =~= code@.push(source@[at as int]) + uncomment(
                    left.drop_first(),
                ));
            }
            code.push(source[at]);
            at = at + 1;
        }
        proof {
            let left = source@.subrange(at as int, stop as int);
            if at < stop {
                assert(left[0] == '/' && left[1] == '/');
            }
            assert(uncomment(left) =~= seq![]);
            assert(code@ =~= started + uncomment(line));
            if first {
                assert(started =~= before);
                assert(before + code_tail(true, rest) =~= code@ + code_tail(false, after));
            } else {
                assert(before + code_tail(false, rest) =~= code@ + code_tail(false, after));
            }
        }
        first = false;
        pos = next;
    }
    assert(source@.skip(pos as int) =~= seq![]);
    assert(code@ + code_tail(first, seq![]) =~= code@);
    code
}

/// Whether `part` stands somewhere in `text`.
fn contains(text: &Vec<char>, part: &Vec<char>) -> (found: bool)
    ensures
        found == occurs(text@, part@),
{
    let mut at: usize = 0;
    while at <= text.len() && part.len() <= text.len() - at
        invariant
            at <= text.len() + 1,
            forall|i: int| 0 <= i < at ==> !occurs_at(text@, part@, i),
        decreases text.len() + 1 - at,
    {
        let mut k: usize = 0;
        while k < part.len() && text[at + k] == part[k]
            invariant
                k <= part.len(),
                at + part.len() <= text.len(),
                forall|i: int| 0 <= i < k ==> text@[at + i] == part@[i],
            decreases part.len() - k,
        {
            k = k + 1;
        }
        if k == part.len() {
            assert(text@.subrange(at as int, at + part.len()) =~= part@);
            assert(occurs_at(text@, part@, at as int));
            return true;
        }
        assert(text@.subrange(at as int, at + part.len())[k as int] == text@[at + k]);
        at = at + 1;
    }
    false
}

proof fn lemma_first_missing_bounds(source: Seq<char>, tags: Seq<Seq<char>>)
    ensures
        0 <= first_missing(source, tags) <= tags.len(),
    decreases tags.len(),
{
    if tags.len() > 0 && declares(source, tags[0]) {
        lemma_first_missing_bounds(source, tags.drop_first());
    }
}

proof fn lemma_first_missing(source: Seq<char>, tags: Seq<Seq<char>>, at: int)
    requires
        0 <= at <= tags.len(),
        forall|i: int| 0 <= i < at ==> declares(source, #[trigger] tags[i]),
        at == tags.len() || !declares(source, tags[at]),
    ensures
        first_missing(source, tags) == at,
    decreases at,
{
    if at > 0 {
        assert(declares(source, tags[0]));
        let rest = tags.drop_first();
        assert forall|i: int| 0 <= i < at - 1 implies declares(source, #[trigger] rest[i]) by {
            assert(rest[i] == tags[i + 1]);
        }
        lemma_first_missing(source, rest, at - 1);
    }
}

/// Decide whether a WGSL file declares every tag (`@compute`, `@vertex`, ...)
/// outside of a `//` comment.
///
/// `read` is what reading the file at `path` gave: its text, or the error in
/// words. The answer is the source, unchanged, when it can be compiled, and
/// otherwise the notice to print. Every pipeline goes through this so that a
/// shader midway through being written degrades to "that pass does nothing"
/// plus a message, instead of a validation panic that takes the window with
/// it.
pub fn load_shader(path: &str, read: Result<String, String>, tags: &[&str]) -> (loaded: Result<
    String,
    String,
>)
    ensures
        result_text(loaded) == load_outcome(path@, result_text(read), texts(tags@)),
{
    let source: String = match read {
        Ok(source) => source,
        Err(error) => {
            let mut notice: String = path.to_owned();
            notice.append(": ");
            notice.append(error.as_str());
            notice.append(" — that pass is disabled");
            return Err(notice);
        },
    };
    let chars: Vec<char> = chars_of(source.as_str());
    let code: Vec<char> = strip_comments(&chars);
    let mut i: usize = 0;
    while i < tags.len()
        invariant
            i <= tags.len(),
            code@ == code_of(source@),
            result_text(read) == Ok::<Seq<char>, Seq<char>>(source@),
            forall|k: int| 0 <= k < i ==> declares(source@, #[trigger] texts(tags@)[k]),
        decreases tags.len() - i,
    {
        let tag: &str = tags[i];
        let tag_chars: Vec<char> = chars_of(tag);
        if !contains(&code, &tag_chars) {
            let mut notice: String = path.to_owned();
            notice.append(": no ");
            notice.append(tag);
            notice.append(" entry point yet — that pass is disabled");
            proof {
                lemma_first_missing(source@, texts(tags@), i as int);
            }
            return Err(notice);
        }
        i = i + 1;
    }
    proof {
        lemma_first_missing(source@, texts(tags@), i as int);
    }
    Ok(source)
}

/// A shader is compiled exactly when its file was read and it declares every
/// tag that was asked for, and it is compiled as it stands in the file.
pub proof fn law_loaded_iff_declared(
    path: Seq<char>,
    read: Result<Seq<char>, Seq<char>>,
    tags: Seq<Seq<char>>,
)
    ensures
        load_outcome(path, read, tags) is Ok <==> (read matches Ok(source) && forall|i: int|
            0 <= i < tags.len() ==> declares(source, #[trigger] tags[i])),
        load_outcome(path, read, tags) is Ok ==> load_outcome(path, read, tags) == read,
{
    if let Ok(source) = read {
        lemma_first_missing_bounds(source, tags);
        lemma_first_missing_fits(source, tags);
        if forall|i: int| 0 <= i < tags.len() ==> declares(source, #[trigger] tags[i]) {
            lemma_first_missing(source, tags, tags.len() as int);
        }
    }
}

proof fn lemma_first_missing_fits(source: Seq<char>, tags: Seq<Seq<char>>)
    ensures
        forall|i: int|
            0 <= i < first_missing(source, tags) ==> declares(source, #[trigger] tags[i]),
        first_missing(source, tags) < tags.len() ==> !declares(
            source,
            tags[first_missing(source, tags)],
        ),
    decreases tags.len(),
{
    if tags.len() > 0 && declares(source, tags[0]) {
        let rest = tags.drop_first();
        lemma_first_missing_bounds(source, rest);
        lemma_first_missing_fits(source, rest);
        let missing = first_missing(source, tags);
        assert forall|i: int| 0 <= i < missing implies declares(source, #[trigger] tags[i]) by {
            if i > 0 {
                assert(tags[i] == rest[i - 1]);
            }
        }
        if missing < tags.len() {
            assert(tags[missing] == rest[missing - 1]);
        }
    }
}

/// The text after `//` on a line does not count.
proof fn lemma_uncomment_ignores(code: Seq<char>, comment: Seq<char>)
    ensures
        uncomment(code + seq!['/', '/'] + comment) == uncomment(code + seq!['/', '/']),
    decreases code.len(),
{
    let long = code + seq!['/', '/'] + comment;
    let short = code + seq!['/', '/'];
    assert(long[0] == short[0] && long[1] == short[1]);
    if code.len() > 0 && !(short[0] == '/' && short[1] == '/') {
        let rest = code.drop_first();
        lemma_uncomment_ignores(rest, comment);
        assert(long.drop_first() =~= rest + seq!['/', '/'] + comment);
        assert(short.drop_first() =~= rest + seq!['/', '/']);
    }
}

/// The first line of `text` and what follows it.
proof fn lemma_lines_split(text: Seq<char>, end: int)
    requires
        0 <= end < text.len(),
        forall|i: int| 0 <= i < end ==> text[i] != '\n',
        text[end] == '\n',
    ensures
        lines(text) == seq![chop_cr(text.take(end))] + lines(text.skip(end + 1)),
{
    lemma_line_end(text, end);
}

/// A text of one line without an ending.
proof fn lemma_lines_single(text: Seq<char>)
    requires
        text.len() > 0,
        forall|i: int| 0 <= i < text.len() ==> text[i] != '\n',
    ensures
        lines(text) == seq![text],
{
    lemma_line_end(text, text.len() as int);
}

/// A source with the comment `//` `comment` in it.
pub open spec fn with_comment(before: Seq<char>, comment: Seq<char>, after: Seq<char>) -> Seq<
    char,
> {
    before + seq!['/', '/'] + comment + after
}

/// What a comment says never matters: two sources that differ only in the
/// text of one comment, between its `//` and the end of its line, have the
/// same code, and so declare the same tags.
pub proof fn law_comment_text_is_ignored(
    before: Seq<char>,
    comment: Seq<char>,
    other: Seq<char>,
    after: Seq<char>,
)
    requires
        forall|i: int| 0 <= i < comment.len() ==> comment[i] != '\n',
        forall|i: int| 0 <= i < other.len() ==> other[i] != '\n',
        after.len() == 0 || after[0] == '\n',
    ensures
        code_of(with_comment(before, comment, after)) == code_of(
            with_comment(before, other, after),
        ),
        forall|tag: Seq<char>| #[trigger]
            declares(with_comment(before, comment, after), tag) == declares(
                with_comment(before, other, after),
                tag,
            ),
    decreases before.len(),
{
    let slashes = seq!['/', '/'];
    let w1 = before + slashes + comment + after;
    let w2 = before + slashes + other + after;
    let end = line_end(before);
    lemma_line_end_bounds(before);
    lemma_line_end_is_first(before);
    if end < before.len() {
        // The comment is on a later line.
        let rest = before.skip(end + 1);
        assert(w1.take(end) =~= before.take(end));
        assert(w2.take(end) =~= before.take(end));
        assert(w1.skip(end + 1) =~= rest + slashes + comment + after);
        assert(w2.skip(end + 1) =~= rest + slashes + other + after);
        lemma_lines_split(w1, end);
        lemma_lines_split(w2, end);
        lemma_code_first_line(w1, chop_cr(before.take(end)), w1.skip(end + 1));
        lemma_code_first_line(w2, chop_cr(before.take(end)), w2.skip(end + 1));
        law_comment_text_is_ignored(rest, comment, other, after);
    } else {
        lemma_code_from_comment_line(before, comment, after);
        lemma_code_from_comment_line(before, other, after);
    }
}

/// The newline that `line_end` stops at is the first.
proof fn lemma_line_end_is_first(text: Seq<char>)
    ensures
        forall|i: int| 0 <= i < line_end(text) ==> text[i] != '\n',
        line_end(text) < text.len() ==> text[line_end(text)] == '\n',
    decreases text.len(),
{
    if text.len() > 0 && text[0] != '\n' {
        let rest = text.drop_first();
        lemma_line_end_bounds(rest);
        lemma_line_end_is_first(rest);
        assert forall|i: int| 0 <= i < line_end(text) implies text[i] != '\n' by {
            if i > 0 {
                assert(text[i] == rest[i - 1]);
            }
        }
        if line_end(text) < text.len() {
            assert(text[line_end(text)] == rest[line_end(rest)]);
        }
    }
}

/// A line with a comment on it, whether or not it ends in a carriage return,
/// is left with what stands before the `//`.
proof fn lemma_uncomment_comment_line(before: Seq<char>, comment: Seq<char>)
    ensures
        uncomment(before + seq!['/', '/'] + comment) == uncomment(before + seq!['/', '/']),
        uncomment(chop_cr(before + seq!['/', '/'] + comment)) == uncomment(
            before + seq!['/', '/'],
        ),
{
    let line = before + seq!['/', '/'] + comment;
    lemma_uncomment_ignores(before, comment);
    if comment.len() > 0 && comment.last() == '\r' {
        assert(chop_cr(line) =~= before + seq!['/', '/'] + comment.drop_last());
        lemma_uncomment_ignores(before, comment.drop_last());
    } else {
        assert(line.last() != '\r') by {
            if comment.len() > 0 {
                assert(line.last() == comment.last());
            } else {
                assert(line.last() == '/');
            }
        }
    }
}

/// The code of a text whose first line is `line`, with or without an ending.
proof fn lemma_code_from_line(line: Seq<char>, after: Seq<char>)
    requires
        line.len() > 0 || after.len() > 0,
        forall|i: int| 0 <= i < line.len() ==> line[i] != '\n',
        after.len() == 0 || after[0] == '\n',
    ensures
        after.len() == 0 ==> code_of(line + after) == uncomment(line),
        after.len() > 0 ==> code_of(line + after) == uncomment(chop_cr(line)) + code_tail(
            false,
            after.skip(1),
        ),
{
    let text = line + after;
    if after.len() == 0 {
        assert(text =~= line);
        lemma_lines_single(line);
    } else {
        let end = line.len() as int;
        assert(text.take(end) =~= line);
        assert(text.skip(end + 1) =~= after.skip(1));
        lemma_lines_split(text, end);
        lemma_code_first_line(text, chop_cr(line), after.skip(1));
    }
}

/// The code of a text whose first line holds a comment.
proof fn lemma_code_from_comment_line(before: Seq<char>, comment: Seq<char>, after: Seq<char>)
    requires
        forall|i: int| 0 <= i < before.len() ==> before[i] != '\n',
        forall|i: int| 0 <= i < comment.len() ==> comment[i] != '\n',
        after.len() == 0 || after[0] == '\n',
    ensures
        after.len() == 0 ==> code_of(before + seq!['/', '/'] + comment + after) == uncomment(
            before + seq!['/', '/'],
        ),
        after.len() > 0 ==> code_of(before + seq!['/', '/'] + comment + after) == uncomment(
            before + seq!['/', '/'],
        ) + code_tail(false, after.skip(1)),
{
    lemma_uncomment_comment_line(before, comment);
    lemma_code_from_line(before + seq!['/', '/'] + comment, after);
}

/// Two slashes in a row at `at`.
spec fn slashes_at(text: Seq<char>, at: int) -> bool {
    0 <= at && at + 1 < text.len() && text[at] == '/' && text[at + 1] == '/'
}

proof fn lemma_uncomment_clean(line: Seq<char>)
    ensures
        forall|at: int| !slashes_at(uncomment(line), at),
        uncomment(line).len() > 0 ==> uncomment(line)[0] == line[0],
        uncomment(line).len() <= line.len(),
    decreases line.len(),
{
    if line.len() > 0 && !(line.len() >= 2 && line[0] == '/' && line[1] == '/') {
        let rest = line.drop_first();
        lemma_uncomment_clean(rest);
        let code = uncomment(line);
        assert forall|at: int| !slashes_at(code, at) by {
            if slashes_at(code, at) {
                if at == 0 {
                    assert(code[1] == uncomment(rest)[0]);
                    assert(rest[0] == line[1]);
                } else {
                    assert(slashes_at(uncomment(rest), at - 1));
                }
            }
        }
    }
}

proof fn lemma_join_clean(ls: Seq<Seq<char>>)
    ensures
        forall|at: int| !slashes_at(join_code(ls), at),
    decreases ls.len(),
{
    if ls.len() == 1 {
        lemma_uncomment_clean(ls[0]);
    } else if ls.len() > 1 {
        lemma_uncomment_clean(ls[0]);
        lemma_join_clean(ls.drop_first());
        let head = uncomment(ls[0]);
        let tail = join_code(ls.drop_first());
        let code = join_code(ls);
        assert(code == head + seq!['\n'] + tail);
        assert forall|at: int| !slashes_at(code, at) by {
            if slashes_at(code, at) {
                if at + 1 < head.len() {
                    assert(slashes_at(head, at));
                } else if at > head.len() {
                    assert(slashes_at(tail, at - head.len() - 1));
                } else {
                    assert(code[head.len() as int] == '\n');
                }
            }
        }
    }
}

/// No `//` is left in the code of a shader.
pub proof fn law_code_holds_no_comment(source: Seq<char>)
    ensures
        !occurs(code_of(source), seq!['/', '/']),
{
    let code = code_of(source);
    let slashes = seq!['/', '/'];
    lemma_join_clean(lines(source));
    assert forall|at: int| !occurs_at(code, slashes, at) by {
        if occurs_at(code, slashes, at) {
            assert(code.subrange(at, at + 2)[0] == '/');
            assert(code.subrange(at, at + 2)[1] == '/');
            assert(slashes_at(code, at));
        }
    }
}

proof fn lemma_join_of_comments(ls: Seq<Seq<char>>)
    requires
        forall|k: int|
            0 <= k < ls.len() ==> (#[trigger] ls[k]).len() >= 2 && ls[k][0] == '/' && ls[k][1]
                == '/',
    ensures
        forall|i: int| 0 <= i < join_code(ls).len() ==> join_code(ls)[i] == '\n',
    decreases ls.len(),
{
    if ls.len() > 0 {
        assert(uncomment(ls[0]) =~= seq![]);
    }
    if ls.len() > 1 {
        let rest = ls.drop_first();
        assert forall|k: int| 0 <= k < rest.len() implies (#[trigger] rest[k]).len() >= 2
            && rest[k][0] == '/' && rest[k][1] == '/' by {
            assert(rest[k] == ls[k + 1]);
        }
        lemma_join_of_comments(rest);
        assert(join_code(ls) =~= seq!['\n'] + join_code(rest));
    }
}

/// A shader with every line commented out declares no tag.
pub proof fn law_commented_out_declares_nothing(source: Seq<char>, tag: Seq<char>)
    requires
        forall|k: int|
            0 <= k < lines(source).len() ==> (#[trigger] lines(source)[k]).len() >= 2
                && lines(source)[k][0] == '/' && lines(source)[k][1] == '/',
        exists|i: int| 0 <= i < tag.len() && tag[i] != '\n',
    ensures
        !declares(source, tag),
{
    let code = code_of(source);
    lemma_join_of_comments(lines(source));
    let i = choose|i: int| 0 <= i < tag.len() && tag[i] != '\n';
    assert forall|at: int| !occurs_at(code, tag, at) by {
        if occurs_at(code, tag, at) {
            assert(code.subrange(at, at + tag.len())[i] == code[at + i]);
        }
    }
}

proof fn lemma_uncomment_keeps(line: Seq<char>)
    requires
        forall|at: int| !slashes_at(line, at),
    ensures
        uncomment(line) == line,
    decreases line.len(),
{
    if line.len() > 0 {
        let rest = line.drop_first();
        assert(!slashes_at(line, 0));
        assert forall|at: int| !slashes_at(rest, at) by {
            if slashes_at(rest, at) {
                assert(slashes_at(line, at + 1));
            }
        }
        lemma_uncomment_keeps(rest);
        assert(seq![line[0]] + rest =~= line);
    }
}

/// Nothing but comments and line endings is lost: a source without a `//` and
/// without a carriage return before a newline is all code, but for the newline
/// at its end.
pub proof fn law_plain_source_is_all_code(source: Seq<char>)
    requires
        !occurs(source, seq!['/', '/']),
        forall|i: int|
            0 <= i < source.len() - 1 && source[i] == '\r' ==> #[trigger] source[i + 1] != '\n',
    ensures
        code_of(source) == (if source.len() > 0 && source.last() == '\n' {
            source.drop_last()
        } else {
            source
        }),
{
    assert forall|at: int| !slashes_at(source, at) by {
        if slashes_at(source, at) {
            assert(source.subrange(at, at + 2) =~= seq!['/', '/']);
            assert(occurs_at(source, seq!['/', '/'], at));
        }
    }
    lemma_plain_source(source);
}

proof fn lemma_plain_source(source: Seq<char>)
    requires
        forall|at: int| !slashes_at(source, at),
        forall|i: int|
            0 <= i < source.len() - 1 && source[i] == '\r' ==> #[trigger] source[i + 1] != '\n',
    ensures
        code_of(source) == (if source.len() > 0 && source.last() == '\n' {
            source.drop_last()
        } else {
            source
        }),
    decreases source.len(),
{
    if source.len() > 0 {
        let end = line_end(source);
        lemma_line_end_bounds(source);
        lemma_line_end_is_first(source);
        let line = source.take(end);
        assert forall|at: int| !slashes_at(line, at) by {
            if slashes_at(line, at) {
                assert(slashes_at(source, at));
            }
        }
        lemma_uncomment_keeps(line);
        if end < source.len() {
            let rest = source.skip(end + 1);
            assert forall|at: int| !slashes_at(rest, at) by {
                if slashes_at(rest, at) {
                    assert(slashes_at(source, at + end + 1));
                }
            }
            assert forall|i: int| 0 <= i < rest.len() - 1 && rest[i] == '\r' implies
                #[trigger] rest[i + 1] != '\n' by {
                assert(rest[i] == source[i + end + 1]);
                assert(rest[i + 1] == source[(i + end + 1) + 1]);
            }
            if end > 0 {
                assert(source[(end - 1) + 1] == '\n');
                assert(line.last() == source[end - 1]);
            }
            assert(chop_cr(line) == line);
            lemma_lines_split(source, end);
            lemma_code_first_line(source, line, rest);
            lemma_plain_source(rest);
            if rest.len() == 0 {
                assert(line + seq![] =~= source.drop_last());
            } else if source.last() == '\n' {
                assert(line + (seq!['\n'] + rest.drop_last()) =~= source.drop_last());
            } else {
                assert(line + (seq!['\n'] + rest) =~= source);
            }
        } else {
            assert(line =~= source);
            lemma_lines_single(source);
        }
    }
}

proof fn lemma_uncomment_cuts(code: Seq<char>)
    requires
        code.len() == 0 || code.last() != '/',
    ensures
        uncomment(code + seq!['/', '/']) == uncomment(code),
    decreases code.len(),
{
    let long = code + seq!['/', '/'];
    if code.len() > 0 {
        let rest = code.drop_first();
        assert(long.drop_first() =~= rest + seq!['/', '/']);
        assert(long[0] == code[0]);
        if code.len() >= 2 {
            assert(long[1] == code[1]);
            assert(rest.last() == code.last());
        } else {
            assert(code[0] == code.last());
        }
        lemma_uncomment_cuts(rest);
    } else {
        assert(long[0] == '/' && long[1] == '/');
    }
}

/// A comment is cut out and nothing else: a source with a comment at the end of
/// a line, or on a line of its own, has the same code as the source without it.
pub proof fn law_comment_is_cut_out(before: Seq<char>, comment: Seq<char>, after: Seq<char>)
    requires
        before.len() > 0 ==> before.last() != '\r' && before.last() != '/',
        before.len() == 0 || before.last() == '\n' ==> after.len() > 0,
        forall|i: int| 0 <= i < comment.len() ==> comment[i] != '\n',
        after.len() == 0 || after[0] == '\n',
    ensures
        code_of(with_comment(before, comment, after)) == code_of(before + after),
    decreases before.len(),
{
    let slashes = seq!['/', '/'];
    let w1 = before + slashes + comment + after;
    let w2 = before + after;
    let end = line_end(before);
    lemma_line_end_bounds(before);
    lemma_line_end_is_first(before);
    if end < before.len() {
        let rest = before.skip(end + 1);
        assert(rest.len() > 0 ==> rest.last() == before.last());
        assert(before.skip(end + 1).len() == 0 ==> before.last() == '\n');
        assert(w1.take(end) =~= before.take(end));
        assert(w2.take(end) =~= before.take(end));
        assert(w1.skip(end + 1) =~= rest + slashes + comment + after);
        assert(w2.skip(end + 1) =~= rest + after);
        lemma_lines_split(w1, end);
        lemma_lines_split(w2, end);
        lemma_code_first_line(w1, chop_cr(before.take(end)), w1.skip(end + 1));
        lemma_code_first_line(w2, chop_cr(before.take(end)), w2.skip(end + 1));
        law_comment_is_cut_out(rest, comment, after);
    } else {
        lemma_code_from_comment_line(before, comment, after);
        lemma_code_from_line(before, after);
        lemma_uncomment_cuts(before);
    }
}

/// Both line endings are one: a source has the same code whether a line ends in
/// a newline or in a carriage return and a newline.
pub proof fn law_line_endings_are_one(before: Seq<char>, after: Seq<char>)
    requires
        before.len() == 0 || before.last() != '\r',
    ensures
        code_of(before + seq!['\r', '\n'] + after) == code_of(before + seq!['\n'] + after),
    decreases before.len(),
{
    let w1 = before + seq!['\r', '\n'] + after;
    let w2 = before + seq!['\n'] + after;
    let end = line_end(before);
    lemma_line_end_bounds(before);
    lemma_line_end_is_first(before);
    if end < before.len() {
        let rest = before.skip(end + 1);
        assert(rest.len() > 0 ==> rest.last() == before.last());
        assert(w1.take(end) =~= before.take(end));
        assert(w2.take(end) =~= before.take(end));
        assert(w1.skip(end + 1) =~= rest + seq!['\r', '\n'] + after);
        assert(w2.skip(end + 1) =~= rest + seq!['\n'] + after);
        lemma_lines_split(w1, end);
        lemma_lines_split(w2, end);
        lemma_code_first_line(w1, chop_cr(before.take(end)), w1.skip(end + 1));
        lemma_code_first_line(w2, chop_cr(before.take(end)), w2.skip(end + 1));
        law_line_endings_are_one(rest, after);
    } else {
        let line = before + seq!['\r'];
        let tail = seq!['\n'] + after;
        assert(w1 =~= line + tail);
        assert(w2 =~= before + tail);
        assert(tail.skip(1) =~= after);
        assert(chop_cr(line) =~= before);
        lemma_code_from_line(line, tail);
        lemma_code_from_line(before, tail);
    }
}

/// A tag is declared exactly when the code is some text, the tag, and some
/// text.
pub proof fn law_declared_iff_it_stands_in_the_code(source: Seq<char>, tag: Seq<char>)
    ensures
        declares(source, tag) <==> exists|head: Seq<char>, tail: Seq<char>|
            code_of(source) == #[trigger] (head + tag + tail),
{
    let code = code_of(source);
    if declares(source, tag) {
        let at = choose|at: int| occurs_at(code, tag, at);
        let (head, tail) = (code.take(at), code.skip(at + tag.len()));
        assert(code =~= head + tag + tail) by {
            assert(tag == code.subrange(at, at + tag.len()));
        }
    }
    if exists|head: Seq<char>, tail: Seq<char>| code == #[trigger] (head + tag + tail) {
        let (head, tail) = choose|head: Seq<char>, tail: Seq<char>|
            code == #[trigger] (head + tag + tail);
        let at = head.len() as int;
        assert(code.subrange(at, at + tag.len()) =~= tag);
        assert(occurs_at(code, tag, at));
    }
}

/// A pass that is disabled says why: it names the file, and the error on
/// reading it or the first tag that it does not declare.
pub proof fn law_notice_says_why(
    path: Seq<char>,
    read: Result<Seq<char>, Seq<char>>,
    tags: Seq<Seq<char>>,
    first: int,
)
    ensures
        read matches Err(error) ==> load_outcome(path, read, tags) == Err::<Seq<char>, Seq<char>>(
            path + ": "@ + error + " — that pass is disabled"@,
        ),
        read matches Ok(source) ==> (0 <= first < tags.len() && !declares(source, tags[first])
            && (forall|i: int| 0 <= i < first ==> declares(source, #[trigger] tags[i]))
            ==> load_outcome(path, read, tags) == Err::<Seq<char>, Seq<char>>(
            path + ": no "@ + tags[first] + " entry point yet — that pass is disabled"@,
        )),
{
    if let Ok(source) = read {
        if 0 <= first < tags.len() && !declares(source, tags[first]) && (forall|i: int|
            0 <= i < first ==> declares(source, #[trigger] tags[i])) {
            lemma_first_missing(source, tags, first);
        }
    }
}

} // verus!
