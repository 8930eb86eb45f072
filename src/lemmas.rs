use vstd::prelude::*;
use crate::generate::{members_text, MemberVariable, PlainOldStruct, MEMBER_INDENT};

verus! {

/// Where the text of member `i` begins inside the joined member text: after
/// the members before it and the newline that separates it from them.
pub open spec fn member_offset(ms: Seq<MemberVariable>, i: int) -> int {
    if i == 0 {
        0
    } else {
        members_text(ms.take(i)).len() + 1int
    }
}

/// Rendering is a function of the record alone: two renderings of the same
/// record are the same text.
pub proof fn lemma_render_deterministic(s: PlainOldStruct, r1: Seq<char>, r2: Seq<char>)
    requires
        r1 == s.text(),
        r2 == s.text(),
    ensures
        r1 == r2,
{
}

/// The joined text of the first `i + 1` members is that of the first `i`,
/// a separating newline unless `i` is zero, and member `i`.
proof fn lemma_members_text_step(ms: Seq<MemberVariable>, i: int)
    requires
        0 <= i < ms.len(),
    ensures
        members_text(ms.take(i + 1)) == members_text(ms.take(i)) + (if i == 0 {
            Seq::<char>::empty()
        } else {
            "\n"@
        }) + ms[i].text(MEMBER_INDENT as nat),
{
    assert(ms.take(i + 1).drop_last() =~= ms.take(i));
    if i == 0 {
        assert(members_text(ms.take(0)) == Seq::<char>::empty());
        assert(Seq::<char>::empty() + Seq::<char>::empty() + ms[0].text(MEMBER_INDENT as nat)
            =~= ms[0].text(MEMBER_INDENT as nat));
    }
}

/// The joined text of a prefix of the members is a prefix of the joined
/// text of all of them.
proof fn lemma_members_text_prefix(ms: Seq<MemberVariable>, k: int)
    requires
        0 <= k <= ms.len(),
    ensures
        members_text(ms.take(k)).len() <= members_text(ms).len(),
        members_text(ms).subrange(0, members_text(ms.take(k)).len() as int) == members_text(
            ms.take(k),
        ),
    decreases ms.len(),
{
    if k == ms.len() {
        assert(ms.take(k) =~= ms);
        assert(members_text(ms).subrange(0, members_text(ms).len() as int) =~= members_text(ms));
    } else {
        let d = ms.drop_last();
        assert(d.take(k) =~= ms.take(k));
        lemma_members_text_prefix(d, k);
        if ms.len() == 1 {
            assert(members_text(ms.take(0)) == Seq::<char>::empty());
            assert(members_text(ms).subrange(0, 0) =~= Seq::<char>::empty());
        } else {
            let whole = members_text(ms);
            let head = members_text(d);
            let part = members_text(ms.take(k));
            assert(whole == head + "\n"@ + ms.last().text(MEMBER_INDENT as nat));
            assert(whole.subrange(0, part.len() as int) =~= head.subrange(0, part.len() as int));
        }
    }
}

/// The text of member `i` stands in the joined member text at its offset.
proof fn lemma_member_at_offset(ms: Seq<MemberVariable>, i: int)
    requires
        0 <= i < ms.len(),
    ensures
        member_offset(ms, i) + ms[i].text(MEMBER_INDENT as nat).len() == members_text(
            ms.take(i + 1),
        ).len(),
        members_text(ms).subrange(
            member_offset(ms, i),
            member_offset(ms, i) + ms[i].text(MEMBER_INDENT as nat).len(),
        ) == ms[i].text(MEMBER_INDENT as nat),
{
    lemma_members_text_step(ms, i);
    lemma_members_text_prefix(ms, i + 1);
    reveal_strlit("\n");
    let t = ms[i].text(MEMBER_INDENT as nat);
    let part = members_text(ms.take(i + 1));
    let off = member_offset(ms, i);
    assert(part.subrange(off, off + t.len()) =~= t);
    assert(members_text(ms).subrange(off, off + t.len()) =~= part.subrange(off, off + t.len()));
}

/// Member declarations come out in the order of the members: for members
/// `i < j` of a record, the text of member `i` stands in the rendering at its
/// position, that of member `j` at its own, and the first ends before the
/// second begins.
pub proof fn lemma_members_in_order(s: PlainOldStruct, i: int, j: int)
    requires
        0 <= i < j < s.member_variables@.len(),
    ensures
        ({
            let ms = s.member_variables@;
            let ti = ms[i].text(MEMBER_INDENT as nat);
            let tj = ms[j].text(MEMBER_INDENT as nat);
            let pi = s.head_text().len() + member_offset(ms, i);
            let pj = s.head_text().len() + member_offset(ms, j);
            &&& s.text().subrange(pi, pi + ti.len()) == ti
            &&& s.text().subrange(pj, pj + tj.len()) == tj
            &&& pi + ti.len() < pj
        }),
{
    let ms = s.member_variables@;
    let h = s.head_text();
    let body = members_text(ms);
    lemma_member_at_offset(ms, i);
    lemma_member_at_offset(ms, j);
    lemma_members_text_prefix(ms, i + 1);
    lemma_members_text_prefix(ms, j + 1);
    lemma_members_text_prefix(ms.take(j), i + 1);
    assert(ms.take(j).take(i + 1) =~= ms.take(i + 1));
    let ti = ms[i].text(MEMBER_INDENT as nat);
    let tj = ms[j].text(MEMBER_INDENT as nat);
    let pi = member_offset(ms, i);
    let pj = member_offset(ms, j);
    assert(s.text() == h + body + "};\n\n"@);
    assert(s.text().subrange(h.len() + pi, h.len() + pi + ti.len()) =~= body.subrange(
        pi,
        pi + ti.len(),
    ));
    assert(s.text().subrange(h.len() + pj, h.len() + pj + tj.len()) =~= body.subrange(
        pj,
        pj + tj.len(),
    ));
}

} // verus!
