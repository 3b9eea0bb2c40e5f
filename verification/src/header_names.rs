//! Reading the header names back out of the canonical texts.
//!
//! A receiver takes the names of the signed headers from two places: the
//! canonical block, one name before the first colon of each line, and the
//! list of signed names, one name between each two semicolons. The laws
//! here say that both readings give the names that were written, in the
//! order in which they were written.

use crate::canonical::{
    canonical_header_line, canonical_headers_text, signed_names_text, SignedHeaderView,
};
use crate::text::{ascii_lower_char, ascii_lower_text};
use vstd::prelude::*;

verus! {

/// The index of the first `c` in `s`; the length of `s` where it holds none.
pub open spec fn first_index_of(s: Seq<char>, c: char) -> int
    decreases s.len(),
{
    if s.len() == 0 {
        0
    } else if s[0] == c {
        0
    } else {
        1 + first_index_of(s.drop_first(), c)
    }
}

/// The pieces of `s` between the separators `c`: one more than `s` holds separators.
pub open spec fn separated_pieces(s: Seq<char>, c: char) -> Seq<Seq<char>>
    decreases s.len(),
{
    let i = first_index_of(s, c);
    if 0 <= i < s.len() {
        seq![s.take(i)] + separated_pieces(s.skip(i + 1), c)
    } else {
        seq![s]
    }
}

/// The lines of `s`, each without the line feed that ends it; what follows
/// the last line feed is a line where it is not empty.
pub open spec fn lines_of(s: Seq<char>) -> Seq<Seq<char>>
    decreases s.len(),
{
    let i = first_index_of(s, '\n');
    if s.len() == 0 {
        Seq::empty()
    } else if 0 <= i < s.len() {
        seq![s.take(i)] + lines_of(s.skip(i + 1))
    } else {
        seq![s]
    }
}

/// The name on a line of the canonical block: what stands before the first colon.
pub open spec fn name_on_line(line: Seq<char>) -> Seq<char> {
    line.take(first_index_of(line, ':'))
}

/// The names that the canonical block `block` is read to hold, line by line.
pub open spec fn names_in_block(block: Seq<char>) -> Seq<Seq<char>> {
    lines_of(block).map_values(|line: Seq<char>| name_on_line(line))
}

/// The names that the list of signed names `list` is read to hold.
pub open spec fn names_in_list(list: Seq<char>) -> Seq<Seq<char>> {
    if list.len() == 0 {
        Seq::empty()
    } else {
        separated_pieces(list, ';')
    }
}

/// The names of `headers` as they are written: in small letters, in their order.
pub open spec fn written_names(headers: Seq<SignedHeaderView>) -> Seq<Seq<char>> {
    headers.map_values(|h: SignedHeaderView| ascii_lower_text(h.name))
}

/// Whether `header` can be read back: its name is not empty and holds no
/// colon, semicolon or line feed, and its value holds no line feed.
pub open spec fn readable_header(header: SignedHeaderView) -> bool {
    &&& header.name.len() > 0
    &&& !header.name.contains(':')
    &&& !header.name.contains(';')
    &&& !header.name.contains('\n')
    &&& !header.value.contains('\n')
}

/// Whether each of `headers` can be read back.
pub open spec fn readable_headers(headers: Seq<SignedHeaderView>) -> bool {
    forall|i: int| 0 <= i < headers.len() ==> readable_header(#[trigger] headers[i])
}

/// The first `c` of a text stands where the text before it holds none.
pub proof fn lemma_first_index_after_prefix(prefix: Seq<char>, rest: Seq<char>, c: char)
    requires
        !prefix.contains(c),
        rest.len() > 0,
        rest[0] == c,
    ensures
        first_index_of(prefix + rest, c) == prefix.len(),
    decreases prefix.len(),
{
    let s = prefix + rest;
    if prefix.len() == 0 {
        assert(s[0] == c);
    } else {
        assert(prefix.contains(prefix[0]));
        assert(s[0] == prefix[0]);
        let shorter = prefix.drop_first();
        assert forall|i: int| 0 <= i < shorter.len() implies shorter[i] != c by {
            assert(prefix.contains(prefix[i + 1]));
        }
        assert(s.drop_first() == shorter + rest);
        lemma_first_index_after_prefix(shorter, rest, c);
    }
}

/// A text that holds no `c` has its first `c` at its length.
pub proof fn lemma_first_index_absent(s: Seq<char>, c: char)
    requires
        !s.contains(c),
    ensures
        first_index_of(s, c) == s.len(),
    decreases s.len(),
{
    if s.len() > 0 {
        assert(s.contains(s[0]));
        let shorter = s.drop_first();
        assert forall|i: int| 0 <= i < shorter.len() implies shorter[i] != c by {
            assert(s.contains(s[i + 1]));
        }
        lemma_first_index_absent(shorter, c);
    }
}

/// Folding to small letters neither makes nor removes a character that is no letter.
pub proof fn lemma_lower_keeps_marks(s: Seq<char>, c: char)
    requires
        c == ':' || c == ';' || c == '\n',
    ensures
        ascii_lower_text(s).contains(c) <==> s.contains(c),
        ascii_lower_text(s).len() == s.len(),
{
    let lower = ascii_lower_text(s);
    if lower.contains(c) {
        let i = choose|i: int| 0 <= i < lower.len() && lower[i] == c;
        assert(lower[i] == ascii_lower_char(s[i]));
        assert(s[i] == c);
    }
    if s.contains(c) {
        let i = choose|i: int| 0 <= i < s.len() && s[i] == c;
        assert(lower[i] == ascii_lower_char(s[i]));
        assert(lower[i] == c);
    }
}

/// The canonical block of a list that is not empty starts with the line of
/// its first header; the block of the others follows.
pub proof fn lemma_block_from_the_front(headers: Seq<SignedHeaderView>)
    requires
        headers.len() > 0,
    ensures
        canonical_headers_text(headers) == canonical_header_line(headers[0])
            + canonical_headers_text(headers.drop_first()),
    decreases headers.len(),
{
    if headers.len() == 1 {
        assert(headers.drop_last() =~= Seq::<SignedHeaderView>::empty());
        assert(headers.drop_first() =~= Seq::<SignedHeaderView>::empty());
        assert(canonical_headers_text(headers.drop_last()) =~= Seq::<char>::empty());
        assert(headers.last() == headers[0]);
        assert(canonical_headers_text(headers) =~= canonical_header_line(headers[0])
            + canonical_headers_text(headers.drop_first()));
    } else {
        lemma_block_from_the_front(headers.drop_last());
        assert(headers.drop_last().drop_first() =~= headers.drop_first().drop_last());
        assert(headers.drop_first().last() == headers.last());
        assert(headers.drop_last()[0] == headers[0]);
        assert(canonical_headers_text(headers) =~= canonical_header_line(headers[0])
            + canonical_headers_text(headers.drop_first()));
    }
}

/// The list of signed names of two or more headers starts with the first
/// name and a semicolon; the list of the others follows.
pub proof fn lemma_list_from_the_front(headers: Seq<SignedHeaderView>)
    requires
        headers.len() > 1,
    ensures
        signed_names_text(headers) == ascii_lower_text(headers[0].name) + seq![';']
            + signed_names_text(headers.drop_first()),
    decreases headers.len(),
{
    if headers.len() == 2 {
        assert(headers.drop_last().len() == 1);
        assert(headers.drop_first().len() == 1);
        assert(headers.drop_last().last() == headers[0]);
        assert(headers.drop_first().last() == headers.last());
        assert(signed_names_text(headers.drop_last()) == ascii_lower_text(headers[0].name));
        assert(signed_names_text(headers.drop_first()) == ascii_lower_text(headers.last().name));
    } else {
        lemma_list_from_the_front(headers.drop_last());
        assert(headers.drop_last().drop_first() =~= headers.drop_first().drop_last());
        assert(headers.drop_first().last() == headers.last());
        assert(headers.drop_last()[0] == headers[0]);
        assert(signed_names_text(headers) =~= ascii_lower_text(headers[0].name) + seq![';']
            + signed_names_text(headers.drop_first()));
    }
}

/// The names read out of the canonical block are the names that were
/// written into it, in the same order.
pub proof fn lemma_names_in_block(headers: Seq<SignedHeaderView>)
    requires
        readable_headers(headers),
    ensures
        names_in_block(canonical_headers_text(headers)) == written_names(headers),
    decreases headers.len(),
{
    let block = canonical_headers_text(headers);
    if headers.len() == 0 {
        assert(names_in_block(block) =~= written_names(headers));
    } else {
        let first = headers[0];
        let others = headers.drop_first();
        let name = ascii_lower_text(first.name);
        let line = name + seq![':'] + first.value;
        let rest = canonical_headers_text(others);
        assert(readable_header(first));
        assert forall|i: int| 0 <= i < others.len() implies readable_header(
            #[trigger] others[i],
        ) by {
            assert(others[i] == headers[i + 1]);
        }
        lemma_block_from_the_front(headers);
        lemma_lower_keeps_marks(first.name, ':');
        lemma_lower_keeps_marks(first.name, '\n');
        assert(!line.contains('\n')) by {
            if line.contains('\n') {
                let i = choose|i: int| 0 <= i < line.len() && line[i] == '\n';
                if i < name.len() {
                    assert(name.contains(name[i]));
                } else if i > name.len() {
                    assert(first.value.contains(first.value[i - name.len() - 1]));
                }
            }
        }
        assert(block =~= line + (seq!['\n'] + rest));
        lemma_first_index_after_prefix(line, seq!['\n'] + rest, '\n');
        assert(block.take(line.len() as int) =~= line);
        assert(block.skip(line.len() as int + 1) =~= rest);
        assert(lines_of(block) == seq![line] + lines_of(rest));
        lemma_first_index_after_prefix(name, seq![':'] + first.value, ':');
        assert(line =~= name + (seq![':'] + first.value));
        assert(name_on_line(line) =~= name);
        lemma_names_in_block(others);
        let read = names_in_block(block);
        let written = written_names(headers);
        assert(names_in_block(rest).len() == lines_of(rest).len());
        assert(written_names(others).len() == others.len());
        assert(read.len() == written.len());
        assert forall|i: int| 0 <= i < read.len() implies read[i] == written[i] by {
            if i > 0 {
                assert(lines_of(block)[i] == lines_of(rest)[i - 1]);
                assert(names_in_block(rest)[i - 1] == written_names(others)[i - 1]);
                assert(others[i - 1] == headers[i]);
            }
        }
        assert(read =~= written);
    }
}

/// The names read out of the list of signed names are the names that were
/// written into it, in the same order.
pub proof fn lemma_names_in_list(headers: Seq<SignedHeaderView>)
    requires
        readable_headers(headers),
    ensures
        names_in_list(signed_names_text(headers)) == written_names(headers),
{
    if headers.len() == 0 {
        assert(names_in_list(signed_names_text(headers)) =~= written_names(headers));
    } else {
        lemma_pieces_of_list(headers);
        lemma_lower_keeps_marks(headers[0].name, ';');
        assert(readable_header(headers[0]));
        if headers.len() > 1 {
            lemma_list_from_the_front(headers);
        }
    }
}

/// The pieces of a list of signed names that is made of one header or more
/// are the names that were written.
pub proof fn lemma_pieces_of_list(headers: Seq<SignedHeaderView>)
    requires
        headers.len() > 0,
        readable_headers(headers),
    ensures
        separated_pieces(signed_names_text(headers), ';') == written_names(headers),
    decreases headers.len(),
{
    let list = signed_names_text(headers);
    let first = headers[0];
    let name = ascii_lower_text(first.name);
    assert(readable_header(first));
    lemma_lower_keeps_marks(first.name, ';');
    if headers.len() == 1 {
        assert(list == name);
        lemma_first_index_absent(name, ';');
        assert(separated_pieces(list, ';') =~= written_names(headers));
    } else {
        let others = headers.drop_first();
        let rest = signed_names_text(others);
        assert forall|i: int| 0 <= i < others.len() implies readable_header(
            #[trigger] others[i],
        ) by {
            assert(others[i] == headers[i + 1]);
        }
        lemma_list_from_the_front(headers);
        assert(list =~= name + (seq![';'] + rest));
        lemma_first_index_after_prefix(name, seq![';'] + rest, ';');
        assert(list.take(name.len() as int) =~= name);
        assert(list.skip(name.len() as int + 1) =~= rest);
        lemma_pieces_of_list(others);
        let read = separated_pieces(list, ';');
        let written = written_names(headers);
        assert(read == seq![name] + separated_pieces(rest, ';'));
        assert forall|i: int| 0 <= i < read.len() implies read[i] == written[i] by {
            if i > 0 {
                assert(written_names(others)[i - 1] == written[i]);
            }
        }
        assert(read =~= written);
    }
}

/// The list of signed names names the headers of the canonical block, in
/// the order of the block.
pub proof fn lemma_signed_names_match_block(headers: Seq<SignedHeaderView>)
    requires
        readable_headers(headers),
    ensures
        names_in_list(signed_names_text(headers)) == names_in_block(
            canonical_headers_text(headers),
        ),
        names_in_list(signed_names_text(headers)) == written_names(headers),
{
    lemma_names_in_block(headers);
    lemma_names_in_list(headers);
}

} // verus!
