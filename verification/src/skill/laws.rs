//! Laws of skill files.

use vstd::prelude::*;

use crate::skill::types::{BlockScan, code_blocks, front_matter_split, is_fence, scan_line, scan_lines, trim_backticks};
use crate::text::{is_first_occurrence, lemma_first_occurrence_unique, lines_of, occurs_at};

verus! {

/// A text opened by "---", then front matter, "---" and a body splits back
/// into that front matter and body, when no "---" starts inside the front
/// matter (counting the closing dashes).
pub proof fn law_front_matter_round_trip(front: Seq<char>, body: Seq<char>)
    requires
        forall|i: int| 0 <= i < front.len() ==> !occurs_at(front + "---"@, "---"@, i),
    ensures
        front_matter_split("---"@ + front + "---"@ + body) == Some((front, body)),
{
    reveal_strlit("---");
    let d = "---"@;
    let s = d + front + d + body;
    assert(s.subrange(0, 3) =~= d);
    assert(is_first_occurrence(s, d, 0));
    assert forall|k: int| #[trigger] is_first_occurrence(s, d, k) implies k == 0 by {
        lemma_first_occurrence_unique(s, d, 0, k);
    }
    assert((choose|k: int| is_first_occurrence(s, d, k)) == 0);
    let rest = s.subrange(3, s.len() as int);
    assert(rest =~= front + d + body);
    let n = front.len() as int;
    assert(rest.subrange(n, n + 3) =~= d);
    assert forall|j: int| 0 <= j < n implies !occurs_at(rest, d, j) by {
        assert(!occurs_at(front + d, d, j));
        assert(rest.subrange(j, j + 3) =~= (front + d).subrange(j, j + 3));
    }
    assert(is_first_occurrence(rest, d, n));
    assert forall|k: int| #[trigger] is_first_occurrence(rest, d, k) implies k == n by {
        lemma_first_occurrence_unique(rest, d, n, k);
    }
    assert((choose|k: int| is_first_occurrence(rest, d, k)) == n);
    assert(rest.subrange(0, n) =~= front);
    assert(rest.subrange(n + 3, rest.len() as int) =~= body);
}

/// Scanning lines none of which is a fence leaves the scan where it started.
proof fn lemma_scan_without_fences(ls: Seq<Seq<char>>)
    requires
        forall|i: int| 0 <= i < ls.len() ==> !is_fence(#[trigger] ls[i]),
    ensures
        scan_lines(ls) == (BlockScan { in_block: false, language: Seq::empty(), code: Seq::empty(), blocks: Seq::empty() }),
    decreases ls.len(),
{
    if ls.len() > 0 {
        let init = ls.subrange(0, ls.len() - 1);
        assert forall|i: int| 0 <= i < init.len() implies !is_fence(#[trigger] init[i]) by {
            assert(init[i] == ls[i]);
        }
        lemma_scan_without_fences(init);
        assert(!is_fence(ls[ls.len() - 1]));
    }
}

/// A Markdown text without a line opening with "```" has no code blocks.
pub proof fn law_no_fences_no_blocks(markdown: Seq<char>)
    requires
        forall|i: int| 0 <= i < lines_of(markdown).len() ==> !is_fence(#[trigger] lines_of(markdown)[i]),
    ensures
        code_blocks(markdown) == Seq::<(Seq<char>, Seq<char>)>::empty(),
{
    lemma_scan_without_fences(lines_of(markdown));
}

/// Lines each followed by a line break, one after another.
pub open spec fn lines_joined(ls: Seq<Seq<char>>) -> Seq<char>
    decreases ls.len(),
{
    if ls.len() == 0 {
        Seq::empty()
    } else {
        lines_joined(ls.drop_last()) + ls.last() + seq!['\n']
    }
}

/// Outside a block the scan holds no code.
proof fn lemma_no_code_outside_blocks(ls: Seq<Seq<char>>)
    ensures
        !scan_lines(ls).in_block ==> scan_lines(ls).code == Seq::<char>::empty(),
    decreases ls.len(),
{
    if ls.len() > 0 {
        lemma_no_code_outside_blocks(ls.subrange(0, ls.len() - 1));
    }
}

/// Inside a block, lines that are not fences add themselves, each with a
/// line break, to the block's code and nothing else.
proof fn lemma_scan_inner_lines(pre: Seq<Seq<char>>, inner: Seq<Seq<char>>)
    requires
        scan_lines(pre).in_block,
        forall|i: int| 0 <= i < inner.len() ==> !is_fence(#[trigger] inner[i]),
    ensures
        scan_lines(pre + inner) == (BlockScan {
            in_block: true,
            language: scan_lines(pre).language,
            code: scan_lines(pre).code + lines_joined(inner),
            blocks: scan_lines(pre).blocks,
        }),
    decreases inner.len(),
{
    if inner.len() == 0 {
        assert(pre + inner =~= pre);
    } else {
        let init = inner.drop_last();
        assert forall|i: int| 0 <= i < init.len() implies !is_fence(#[trigger] init[i]) by {
            assert(init[i] == inner[i]);
        }
        lemma_scan_inner_lines(pre, init);
        let all = pre + inner;
        assert(all.subrange(0, all.len() - 1) =~= pre + init);
        assert(all[all.len() - 1] == inner.last());
        assert(!is_fence(inner.last()));
        assert(scan_lines(pre).code + lines_joined(init) + inner.last() + seq!['\n']
            =~= scan_lines(pre).code + lines_joined(inner));
    }
}

/// The backticks of an opening fence are dropped from its language.
proof fn lemma_fence_language(lang: Seq<char>)
    requires
        lang.len() == 0 || lang[0] != '`',
    ensures
        trim_backticks(seq!['`', '`', '`'] + lang) == lang,
{
    let s = seq!['`', '`', '`'] + lang;
    let s1 = s.subrange(1, s.len() as int);
    let s2 = s1.subrange(1, s1.len() as int);
    let s3 = s2.subrange(1, s2.len() as int);
    assert(s3 =~= lang);
    assert(trim_backticks(s3) == lang);
    assert(s2.len() > 0 && s2[0] == '`');
    assert(trim_backticks(s2) == trim_backticks(s3));
    assert(s1.len() > 0 && s1[0] == '`');
    assert(trim_backticks(s1) == trim_backticks(s2));
    assert(s.len() > 0 && s[0] == '`');
}

/// A fenced block's code is its inner lines, each followed by a line break,
/// and its language the opening fence without its backticks: when the lines
/// of a Markdown text are some lines outside any block, an opening fence
/// "```" + `lang`, inner lines L1..Lk that are not fences and a closing
/// fence, its code blocks are those of the first lines followed by
/// (`lang`, L1 + "\n" + ... + Lk + "\n").
pub proof fn law_block_code_is_its_lines(
    markdown: Seq<char>,
    pre: Seq<Seq<char>>,
    lang: Seq<char>,
    inner: Seq<Seq<char>>,
    close: Seq<char>,
)
    requires
        lines_of(markdown) == pre + seq![seq!['`', '`', '`'] + lang] + inner + seq![close],
        !scan_lines(pre).in_block,
        lang.len() == 0 || lang[0] != '`',
        forall|i: int| 0 <= i < inner.len() ==> !is_fence(#[trigger] inner[i]),
        is_fence(close),
    ensures
        code_blocks(markdown) == scan_lines(pre).blocks.push((lang, lines_joined(inner))),
{
    let open = seq!['`', '`', '`'] + lang;
    let opened = pre + seq![open];
    assert(opened.subrange(0, opened.len() - 1) =~= pre);
    assert(opened[opened.len() - 1] == open);
    assert(is_fence(open));
    lemma_fence_language(lang);
    lemma_no_code_outside_blocks(pre);
    assert(scan_lines(opened) == scan_line(scan_lines(pre), open));
    lemma_scan_inner_lines(opened, inner);
    let all = opened + inner + seq![close];
    assert(all =~= lines_of(markdown));
    assert(all.subrange(0, all.len() - 1) =~= opened + inner);
    assert(all[all.len() - 1] == close);
    assert(Seq::<char>::empty() + lines_joined(inner) =~= lines_joined(inner));
}

/// A block that is opened and never closed is not a code block: when the
/// lines of a Markdown text end with an opening fence and lines that are not
/// fences, its code blocks are those of the lines before the fence.
pub proof fn law_unclosed_block_is_dropped(
    markdown: Seq<char>,
    pre: Seq<Seq<char>>,
    lang: Seq<char>,
    inner: Seq<Seq<char>>,
)
    requires
        lines_of(markdown) == pre + seq![seq!['`', '`', '`'] + lang] + inner,
        !scan_lines(pre).in_block,
        forall|i: int| 0 <= i < inner.len() ==> !is_fence(#[trigger] inner[i]),
    ensures
        code_blocks(markdown) == scan_lines(pre).blocks,
{
    let open = seq!['`', '`', '`'] + lang;
    let opened = pre + seq![open];
    assert(opened.subrange(0, opened.len() - 1) =~= pre);
    assert(opened[opened.len() - 1] == open);
    assert(is_fence(open));
    lemma_scan_inner_lines(opened, inner);
    assert(opened + inner =~= lines_of(markdown));
}

} // verus!
