//! The `Content-Disposition` header of a download.

use vstd::prelude::*;
use vstd::string::StringExecFns;
use vstd::utf8::{encode_utf8, decode_utf8};

use crate::text::{
    ascii_alphanumeric, from_chars, hex_upper, hex_upper_digit, hexadecimal_digits,
    is_ascii_alphanumeric, to_chars, trim, trim_end, trim_start, trimmed,
    trimming_keeps_what_stands_between, whitespace,
};

verus! {

/// The characters that part a path into segments.
pub open spec fn separator(c: char) -> bool {
    c == '/' || c == '\\'
}

/// What stands behind the last separator; all of the text if it has none.
pub open spec fn last_segment(s: Seq<char>) -> Seq<char>
    decreases s.len(),
{
    if s.len() == 0 || separator(s.last()) {
        Seq::empty()
    } else {
        last_segment(s.drop_last()).push(s.last())
    }
}

/// The name under which a file is offered: its last path segment without
/// surrounding whitespace, or `attachment` where nothing is left.
pub open spec fn base_name(filename: Seq<char>) -> Seq<char> {
    let name = trimmed(last_segment(filename));
    if name.len() == 0 {
        "attachment"@
    } else {
        name
    }
}

/// The visible ASCII characters, without the space.
pub open spec fn ascii_graphic(c: char) -> bool {
    '!' <= c <= '~'
}

/// What a character becomes inside the quoted fallback name.
pub open spec fn fallback_char(c: char) -> char {
    if ascii_graphic(c) && c != '"' && c != '\\' {
        c
    } else {
        '_'
    }
}

/// The name for clients that read ASCII only.
pub open spec fn ascii_fallback(base: Seq<char>) -> Seq<char> {
    base.map_values(|c: char| fallback_char(c))
}

/// The bytes that an extended parameter value carries as they are.
pub open spec fn attr_char(b: u8) -> bool {
    ||| ascii_alphanumeric(b as char)
    ||| b == 0x2d
    ||| b == 0x5f
    ||| b == 0x2e
    ||| b == 0x7e
    ||| b == 0x21
    ||| b == 0x23
    ||| b == 0x24
    ||| b == 0x26
    ||| b == 0x2b
    ||| b == 0x5e
}

/// One byte of an extended parameter value: itself, or `%` and two digits.
pub open spec fn encoded_byte(b: u8) -> Seq<char> {
    if attr_char(b) {
        seq![b as char]
    } else {
        seq!['%', hex_upper(b as int / 16), hex_upper(b as int % 16)]
    }
}

/// The percent-encoding of a byte string.
pub open spec fn percent_encoded(bytes: Seq<u8>) -> Seq<char>
    decreases bytes.len(),
{
    if bytes.len() == 0 {
        Seq::empty()
    } else {
        encoded_byte(bytes[0]) + percent_encoded(bytes.drop_first())
    }
}

/// The value of a hexadecimal digit.
pub open spec fn hex_value(c: char) -> Option<int> {
    if '0' <= c <= '9' {
        Some(c as int - 48)
    } else if 'A' <= c <= 'F' {
        Some(c as int - 55)
    } else if 'a' <= c <= 'f' {
        Some(c as int - 87)
    } else {
        None
    }
}

/// How a client reads percent-encoded text back into bytes; `None` where the
/// text is malformed.
pub open spec fn percent_decoded(text: Seq<char>) -> Option<Seq<u8>>
    decreases text.len(),
{
    if text.len() == 0 {
        Some(Seq::empty())
    } else if text[0] == '%' {
        if text.len() < 3 {
            None
        } else {
            match (hex_value(text[1]), hex_value(text[2]), percent_decoded(text.skip(3))) {
                (Some(high), Some(low), Some(rest)) => Some(seq![(16 * high + low) as u8] + rest),
                _ => None,
            }
        }
    } else if text[0] <= '~' {
        match percent_decoded(text.skip(1)) {
            Some(rest) => Some(seq![text[0] as u8] + rest),
            None => None,
        }
    } else {
        None
    }
}

/// The whole header value for a file name.
pub open spec fn content_disposition(filename: Seq<char>) -> Seq<char> {
    "attachment; filename=\""@ + ascii_fallback(base_name(filename)) + "\"; filename*=UTF-8''"@
        + percent_encoded(encode_utf8(base_name(filename)))
}

/// The last path segment of a file name.
fn last_segment_text(filename: &str) -> (segment: String)
    ensures
        segment@ == last_segment(filename@),
{
    let chars = to_chars(filename);
    let mut start: usize = chars.len();
    assert(filename@.take(start as int) =~= filename@);
    assert(last_segment(filename@) =~= last_segment(filename@.take(start as int)) + filename@.skip(
        start as int,
    ));
    while start > 0 && chars[start - 1] != '/' && chars[start - 1] != '\\'
        invariant
            start <= chars.len(),
            chars@ == filename@,
            last_segment(filename@) == last_segment(filename@.take(start as int)) + filename@.skip(
                start as int,
            ),
        decreases start,
    {
        assert(filename@.take(start as int).drop_last() =~= filename@.take(start - 1));
        assert(last_segment(filename@) =~= last_segment(filename@.take(start - 1)) + filename@.skip(
            start - 1,
        ));
        start = start - 1;
    }
    assert(last_segment(filename@.take(start as int)) =~= Seq::empty());
    assert(last_segment(filename@) =~= filename@.subrange(start as int, filename@.len() as int));
    from_chars(&chars, start, chars.len())
}

/// The ASCII-only rendering of a name.
fn ascii_fallback_text(base: &str) -> (fallback: String)
    ensures
        fallback@ == ascii_fallback(base@),
{
    let chars = to_chars(base);
    let mut fallback = String::new();
    let mut i: usize = 0;
    while i < chars.len()
        invariant
            i <= chars.len(),
            chars@ == base@,
            fallback@ == ascii_fallback(base@).take(i as int),
        decreases chars.len() - i,
    {
        let c = chars[i];
        if '!' <= c && c <= '~' && c != '"' && c != '\\' {
            fallback.push(c);
        } else {
            fallback.push('_');
        }
        assert(fallback@ =~= ascii_fallback(base@).take(i + 1));
        i = i + 1;
    }
    assert(ascii_fallback(base@).take(chars.len() as int) =~= ascii_fallback(base@));
    fallback
}

/// The percent-encoding of a byte string.
pub fn percent_encode(bytes: &[u8]) -> (encoded: String)
    ensures
        encoded@ == percent_encoded(bytes@),
{
    let mut encoded = String::new();
    let mut i: usize = 0;
    assert(bytes@.skip(0) =~= bytes@);
    assert(encoded@ + percent_encoded(bytes@) =~= percent_encoded(bytes@));
    while i < bytes.len()
        invariant
            i <= bytes.len(),
            encoded@ + percent_encoded(bytes@.skip(i as int)) == percent_encoded(bytes@),
        decreases bytes.len() - i,
    {
        let b = bytes[i];
        let ghost before = encoded@;
        if is_ascii_alphanumeric(b as char) || b == 0x2d || b == 0x5f || b == 0x2e || b == 0x7e || b
            == 0x21 || b == 0x23 || b == 0x24 || b == 0x26 || b == 0x2b || b == 0x5e {
            encoded.push(b as char);
        } else {
            encoded.push('%');
            encoded.push(hex_upper_digit(b / 16));
            encoded.push(hex_upper_digit(b % 16));
        }
        proof {
            assert(encoded@ =~= before + encoded_byte(b));
            assert(bytes@.skip(i as int).drop_first() =~= bytes@.skip(i + 1));
            assert(encoded@ + percent_encoded(bytes@.skip(i + 1)) =~= before + percent_encoded(
                bytes@.skip(i as int),
            ));
        }
        i = i + 1;
    }
    assert(encoded@ + percent_encoded(bytes@.skip(i as int)) =~= encoded@);
    encoded
}

/// Builds a `Content-Disposition` header value that carries Unicode file names
/// in an extended parameter, with an ASCII-only fallback for old clients. Path
/// segments before the last one are dropped.
pub fn build_content_disposition(filename: &str) -> (header: String)
    ensures
        header@ == content_disposition(filename@),
{
    let segment = last_segment_text(filename);
    let name = trim(segment.as_str());
    let base = if name.as_str().is_empty() {
        "attachment".to_owned()
    } else {
        name
    };
    let fallback = ascii_fallback_text(base.as_str());
    let encoded = percent_encode(base.as_str().as_bytes());
    let mut header = "attachment; filename=\"".to_owned();
    header.append(fallback.as_str());
    header.append("\"; filename*=UTF-8''");
    header.append(encoded.as_str());
    header
}

/// Trimming keeps whatever holds of every character.
proof fn lemma_trimmed_keeps(s: Seq<char>, p: spec_fn(char) -> bool)
    requires
        forall|i: int| 0 <= i < s.len() ==> p(#[trigger] s[i]),
    ensures
        forall|i: int| 0 <= i < trimmed(s).len() ==> p(#[trigger] trimmed(s)[i]),
{
    lemma_trim_start_keeps(s, p);
    lemma_trim_end_keeps(trim_start(s), p);
}

proof fn lemma_trim_start_keeps(s: Seq<char>, p: spec_fn(char) -> bool)
    requires
        forall|i: int| 0 <= i < s.len() ==> p(#[trigger] s[i]),
    ensures
        forall|i: int| 0 <= i < trim_start(s).len() ==> p(#[trigger] trim_start(s)[i]),
    decreases s.len(),
{
    if s.len() > 0 && whitespace(s[0]) {
        let rest = s.drop_first();
        lemma_trim_start_keeps(rest, p);
        assert(trim_start(s) == trim_start(rest));
    } else {
        assert(trim_start(s) == s);
    }
}

proof fn lemma_trim_end_keeps(s: Seq<char>, p: spec_fn(char) -> bool)
    requires
        forall|i: int| 0 <= i < s.len() ==> p(#[trigger] s[i]),
    ensures
        forall|i: int| 0 <= i < trim_end(s).len() ==> p(#[trigger] trim_end(s)[i]),
    decreases s.len(),
{
    if s.len() > 0 && whitespace(s.last()) {
        let rest = s.drop_last();
        lemma_trim_end_keeps(rest, p);
        assert(trim_end(s) == trim_end(rest));
    } else {
        assert(trim_end(s) == s);
    }
}

proof fn lemma_last_segment_has_no_separator(s: Seq<char>)
    ensures
        forall|i: int| 0 <= i < last_segment(s).len() ==> !separator(#[trigger] last_segment(s)[i]),
    decreases s.len(),
{
    if s.len() > 0 && !separator(s.last()) {
        let rest = last_segment(s.drop_last());
        lemma_last_segment_has_no_separator(s.drop_last());
        assert(last_segment(s) == rest.push(s.last()));
        assert forall|i: int| 0 <= i < last_segment(s).len() implies !separator(
            #[trigger] last_segment(s)[i],
        ) by {
            if i < rest.len() {
                assert(last_segment(s)[i] == rest[i]);
            }
        }
    }
}

/// Every byte is written with visible ASCII characters other than path
/// separators, quotes and apostrophes.
proof fn lemma_percent_encoded_chars(bytes: Seq<u8>)
    ensures
        forall|i: int|
            0 <= i < percent_encoded(bytes).len() ==> {
                let c = #[trigger] percent_encoded(bytes)[i];
                '!' <= c <= '~' && !separator(c) && c != '"' && c != '\''
            },
    decreases bytes.len(),
{
    if bytes.len() > 0 {
        let head = encoded_byte(bytes[0]);
        let rest = percent_encoded(bytes.drop_first());
        lemma_percent_encoded_chars(bytes.drop_first());
        assert(percent_encoded(bytes) == head + rest);
        assert forall|i: int| 0 <= i < percent_encoded(bytes).len() implies {
            let c = #[trigger] percent_encoded(bytes)[i];
            '!' <= c <= '~' && !separator(c) && c != '"' && c != '\''
        } by {
            if i < head.len() {
                assert(percent_encoded(bytes)[i] == head[i]);
            } else {
                assert(percent_encoded(bytes)[i] == rest[i - head.len()]);
            }
        }
    }
}

/// A file is always offered under some name, and that name holds no path
/// separator.
pub proof fn base_name_is_a_plain_name(filename: Seq<char>)
    ensures
        base_name(filename).len() > 0,
        forall|i: int|
            0 <= i < base_name(filename).len() ==> !separator(#[trigger] base_name(filename)[i]),
{
    reveal_strlit("attachment");
    lemma_last_segment_has_no_separator(filename);
    lemma_trimmed_keeps(last_segment(filename), |c: char| !separator(c));
}

/// The quoted fallback can never be left early: it has one character for each
/// character of the name, all of them visible ASCII, and none is a quote or a
/// backslash.
pub proof fn fallback_stays_quoted(base: Seq<char>)
    ensures
        ascii_fallback(base).len() == base.len(),
        forall|i: int|
            0 <= i < base.len() ==> {
                let c = #[trigger] ascii_fallback(base)[i];
                ascii_graphic(c) && c != '"' && c != '\\'
            },
{
}

/// The header value is visible ASCII throughout, whatever the file is called:
/// no line break or other control character can enter the response head.
pub proof fn header_is_visible_ascii(filename: Seq<char>)
    ensures
        forall|i: int|
            0 <= i < content_disposition(filename).len() ==> ' ' <= #[trigger] content_disposition(
                filename,
            )[i] <= '~',
{
    reveal_strlit("attachment; filename=\"");
    reveal_strlit("\"; filename*=UTF-8''");
    fallback_stays_quoted(base_name(filename));
    lemma_percent_encoded_chars(encode_utf8(base_name(filename)));
}

/// No path separator is left in the header value.
pub proof fn header_carries_no_path(filename: Seq<char>)
    ensures
        forall|i: int|
            0 <= i < content_disposition(filename).len() ==> !separator(
                #[trigger] content_disposition(filename)[i],
            ),
{
    reveal_strlit("attachment; filename=\"");
    reveal_strlit("\"; filename*=UTF-8''");
    base_name_is_a_plain_name(filename);
    let base = base_name(filename);
    assert forall|i: int| 0 <= i < base.len() implies !separator(
        #[trigger] ascii_fallback(base)[i],
    ) by {
        assert(!separator(base[i]));
    }
    lemma_percent_encoded_chars(encode_utf8(base));
}

/// Percent-encoding loses nothing: decoding gives the same bytes back.
pub proof fn percent_encoding_reads_back(bytes: Seq<u8>)
    ensures
        percent_decoded(percent_encoded(bytes)) == Some(bytes),
    decreases bytes.len(),
{
    if bytes.len() > 0 {
        let b = bytes[0];
        let rest = bytes.drop_first();
        let text = percent_encoded(bytes);
        percent_encoding_reads_back(rest);
        if attr_char(b) {
            assert(text.skip(1) =~= percent_encoded(rest));
            assert(text[0] == b as char);
            assert(seq![b] + rest =~= bytes);
        } else {
            assert(text.skip(3) =~= percent_encoded(rest));
            assert(text[1] == hex_upper(b as int / 16));
            assert(text[2] == hex_upper(b as int % 16));
            assert(hex_value(text[1]) == Some(b as int / 16));
            assert(hex_value(text[2]) == Some(b as int % 16));
            assert(seq![b] + rest =~= bytes);
        }
    } else {
        assert(bytes =~= Seq::empty());
    }
}

/// What stands behind the last occurrence of a character; all of the text if
/// the character does not occur.
pub open spec fn after_last(s: Seq<char>, mark: char) -> Seq<char>
    decreases s.len(),
{
    if s.len() == 0 || s.last() == mark {
        Seq::empty()
    } else {
        after_last(s.drop_last(), mark).push(s.last())
    }
}

proof fn lemma_after_last(head: Seq<char>, tail: Seq<char>, mark: char)
    requires
        head.len() > 0,
        head.last() == mark,
        forall|i: int| 0 <= i < tail.len() ==> #[trigger] tail[i] != mark,
    ensures
        after_last(head + tail, mark) == tail,
    decreases tail.len(),
{
    let s = head + tail;
    if tail.len() == 0 {
        assert(s =~= head);
        assert(tail =~= Seq::empty());
    } else {
        let rest = tail.drop_last();
        assert(s.drop_last() =~= head + rest);
        assert(s.last() == tail[tail.len() - 1]);
        lemma_after_last(head, rest, mark);
        assert(rest.push(tail.last()) =~= tail);
    }
}

/// A client that percent-decodes what stands behind the last apostrophe of the
/// header, and reads it as UTF-8, has the file's name exactly, in any script.
pub proof fn extended_name_reads_back(filename: Seq<char>)
    ensures
        ({
            let value = after_last(content_disposition(filename), '\'');
            &&& percent_decoded(value) is Some
            &&& decode_utf8(percent_decoded(value)->0) == base_name(filename)
        }),
{
    reveal_strlit("\"; filename*=UTF-8''");
    let base = base_name(filename);
    let encoded = percent_encoded(encode_utf8(base));
    let head = "attachment; filename=\""@ + ascii_fallback(base) + "\"; filename*=UTF-8''"@;
    lemma_percent_encoded_chars(encode_utf8(base));
    assert(head.last() == '\'');
    lemma_after_last(head, encoded, '\'');
    percent_encoding_reads_back(encode_utf8(base));
    vstd::utf8::encode_utf8_decode_utf8(base);
}

proof fn lemma_last_segment_of_plain(s: Seq<char>)
    requires
        forall|i: int| 0 <= i < s.len() ==> !separator(#[trigger] s[i]),
    ensures
        last_segment(s) == s,
    decreases s.len(),
{
    if s.len() > 0 {
        lemma_last_segment_of_plain(s.drop_last());
        assert(s.drop_last().push(s.last()) =~= s);
    } else {
        assert(s =~= Seq::empty());
    }
}

proof fn lemma_last_segment_behind(dir: Seq<char>, segment: Seq<char>)
    requires
        dir.len() > 0 && separator(dir.last()),
        forall|i: int| 0 <= i < segment.len() ==> !separator(#[trigger] segment[i]),
    ensures
        last_segment(dir + segment) == segment,
    decreases segment.len(),
{
    let s = dir + segment;
    if segment.len() == 0 {
        assert(s =~= dir);
        assert(segment =~= Seq::empty());
    } else {
        assert(s.drop_last() =~= dir + segment.drop_last());
        assert(s.last() == segment.last());
        lemma_last_segment_behind(dir, segment.drop_last());
        assert(segment.drop_last().push(segment.last()) =~= segment);
    }
}

/// A file is offered under its own name, all of it: the path before it and the
/// whitespace around it are dropped, and nothing else. Where no name is left it
/// is offered as `attachment`.
pub proof fn files_keep_their_names(
    dir: Seq<char>,
    lead: Seq<char>,
    name: Seq<char>,
    tail: Seq<char>,
)
    requires
        dir.len() > 0 ==> dir[dir.len() - 1] == '/' || dir[dir.len() - 1] == '\\',
        forall|i: int| 0 <= i < lead.len() ==> whitespace(#[trigger] lead[i]),
        forall|i: int| 0 <= i < tail.len() ==> whitespace(#[trigger] tail[i]),
        forall|i: int| 0 <= i < name.len() ==> #[trigger] name[i] != '/' && name[i] != '\\',
        name.len() > 0 ==> !whitespace(name[0]) && !whitespace(name[name.len() - 1]),
    ensures
        name.len() > 0 ==> base_name(dir + (lead + name + tail)) == name,
        name.len() == 0 ==> base_name(dir + (lead + name + tail)) == "attachment"@,
{
    let segment = lead + name + tail;
    assert forall|i: int| 0 <= i < segment.len() implies !separator(#[trigger] segment[i]) by {
        if i < lead.len() {
            assert(segment[i] == lead[i]);
        } else if i < lead.len() + name.len() {
            assert(segment[i] == name[i - lead.len()]);
        } else {
            assert(segment[i] == tail[i - lead.len() - name.len()]);
        }
    }
    if dir.len() > 0 {
        lemma_last_segment_behind(dir, segment);
    } else {
        assert(dir + segment =~= segment);
        lemma_last_segment_of_plain(segment);
    }
    trimming_keeps_what_stands_between(lead, name, tail);
}

/// A plain name is offered unchanged, and so it is behind any path.
pub proof fn plain_names_are_offered_unchanged(dir: Seq<char>, name: Seq<char>)
    requires
        name.len() > 0,
        forall|i: int| 0 <= i < name.len() ==> #[trigger] name[i] != '/' && name[i] != '\\',
        !whitespace(name[0]) && !whitespace(name[name.len() - 1]),
    ensures
        base_name(name) == name,
        base_name(dir + "/"@ + name) == name,
        base_name(dir + "\\"@ + name) == name,
{
    reveal_strlit("/");
    reveal_strlit("\\");
    let none = Seq::<char>::empty();
    assert(none + (none + name + none) =~= name);
    assert((dir + "/"@) + (none + name + none) =~= dir + "/"@ + name);
    assert((dir + "\\"@) + (none + name + none) =~= dir + "\\"@ + name);
    files_keep_their_names(none, none, name, none);
    files_keep_their_names(dir + "/"@, none, name, none);
    files_keep_their_names(dir + "\\"@, none, name, none);
}

/// A client that reads the extended parameter of the header of a plainly named
/// file has that very name.
pub proof fn plain_names_read_back(filename: &str, header: String)
    requires
        call_ensures(build_content_disposition, (filename,), header),
        filename@.len() > 0,
        forall|i: int|
            0 <= i < filename@.len() ==> #[trigger] filename@[i] != '/' && filename@[i] != '\\',
        !whitespace(filename@[0]) && !whitespace(filename@[filename@.len() - 1]),
    ensures
        ({
            let value = after_last(header@, '\'');
            &&& percent_decoded(value) is Some
            &&& decode_utf8(percent_decoded(value)->0) == filename@
        }),
{
    plain_names_are_offered_unchanged(Seq::empty(), filename@);
    extended_name_reads_back(filename@);
}

/// The header of a file named `name`, wherever it lies: the fallback has the
/// name character by character, with an underscore for what is not visible
/// ASCII, a quote or a backslash; the extended parameter has its UTF-8,
/// percent-encoded.
pub proof fn header_names_the_file_twice(
    filename: &str,
    dir: Seq<char>,
    lead: Seq<char>,
    name: Seq<char>,
    tail: Seq<char>,
    header: String,
)
    requires
        call_ensures(build_content_disposition, (filename,), header),
        filename@ == dir + (lead + name + tail),
        dir.len() > 0 ==> dir[dir.len() - 1] == '/' || dir[dir.len() - 1] == '\\',
        forall|i: int| 0 <= i < lead.len() ==> whitespace(#[trigger] lead[i]),
        forall|i: int| 0 <= i < tail.len() ==> whitespace(#[trigger] tail[i]),
        forall|i: int| 0 <= i < name.len() ==> #[trigger] name[i] != '/' && name[i] != '\\',
        name.len() > 0 ==> !whitespace(name[0]) && !whitespace(name[name.len() - 1]),
    ensures
        ({
            let base = if name.len() > 0 {
                name
            } else {
                "attachment"@
            };
            header@ == "attachment; filename=\""@ + base.map_values(
                |c: char|
                    if '!' <= c <= '~' && c != '"' && c != '\\' {
                        c
                    } else {
                        '_'
                    },
            ) + "\"; filename*=UTF-8''"@ + percent_encoded(encode_utf8(base))
        }),
{
    files_keep_their_names(dir, lead, name, tail);
    let base = base_name(filename@);
    assert(ascii_fallback(base) =~= base.map_values(
        |c: char|
            if '!' <= c <= '~' && c != '"' && c != '\\' {
                c
            } else {
                '_'
            },
    ));
}

/// Percent-encoding goes byte by byte: letters, digits and ten other characters
/// stand for themselves, and every other byte is `%` and its two upper-case
/// hexadecimal digits.
pub proof fn percent_encoding_goes_byte_by_byte(head: Seq<u8>, b: u8)
    ensures
        percent_encoded(Seq::empty()) == Seq::<char>::empty(),
        percent_encoded(head.push(b)) == percent_encoded(head) + (if {
            ||| 0x30 <= b <= 0x39
            ||| 0x41 <= b <= 0x5a
            ||| 0x61 <= b <= 0x7a
            ||| "-_.~!#$&+^"@.contains(b as char)
        } {
            seq![b as char]
        } else {
            seq!['%', "0123456789ABCDEF"@[b as int / 16], "0123456789ABCDEF"@[b as int % 16]]
        }),
    decreases head.len(),
{
    let whole = head.push(b);
    if head.len() == 0 {
        reveal_strlit("-_.~!#$&+^");
        let kept = "-_.~!#$&+^"@;
        assert(kept[0] == '-' && kept[1] == '_' && kept[2] == '.' && kept[3] == '~' && kept[4]
            == '!' && kept[5] == '#' && kept[6] == '$' && kept[7] == '&' && kept[8] == '+'
            && kept[9] == '^');
        hexadecimal_digits(b as int / 16);
        hexadecimal_digits(b as int % 16);
        assert(whole.drop_first() =~= Seq::empty());
        assert(percent_encoded(whole.drop_first()) =~= Seq::empty());
        assert(percent_encoded(whole) =~= encoded_byte(b));
    } else {
        percent_encoding_goes_byte_by_byte(head.drop_first(), b);
        assert(whole.drop_first() =~= head.drop_first().push(b));
        assert(whole[0] == head[0]);
    }
}

/// What is percent-encoded for the header is what percent-encoding gives.
pub proof fn percent_encode_is_percent_encoding(bytes: &[u8], encoded: String)
    requires
        call_ensures(percent_encode, (bytes,), encoded),
    ensures
        percent_decoded(encoded@) == Some(bytes@),
        encoded@ == percent_encoded(bytes@),
{
    percent_encoding_reads_back(bytes@);
}

} // verus!
