use vstd::prelude::*;

verus! {

/// The transcription made of the given segments: each segment's text in
/// order, each followed by one newline.
pub open spec fn transcript_of(segs: Seq<Seq<char>>) -> Seq<char>
    decreases segs.len(),
{
    if segs.len() == 0 {
        Seq::empty()
    } else {
        transcript_of(segs.drop_last()) + segs.last() + seq!['\n']
    }
}

/// Where segment `k` starts in the transcription of `segs`.
pub open spec fn segment_start(segs: Seq<Seq<char>>, k: int) -> int {
    transcript_of(segs.take(k)).len() as int
}

/// Each segment appears whole in the transcription, in the order given,
/// followed by exactly one newline; the next segment starts right after that
/// newline, and nothing follows the last segment's newline.
pub proof fn lemma_transcript_layout(segs: Seq<Seq<char>>)
    ensures
        forall|k: int|
            0 <= k < segs.len() ==> {
                let start = #[trigger] segment_start(segs, k);
                &&& transcript_of(segs).subrange(start, start + segs[k].len()) == segs[k]
                &&& transcript_of(segs)[start + segs[k].len()] == '\n'
                &&& segment_start(segs, k + 1) == start + segs[k].len() + 1
            },
        segs.len() > 0 ==> transcript_of(segs).len() == segment_start(segs, segs.len() - 1)
            + segs.last().len() + 1,
    decreases segs.len(),
{
    if segs.len() > 0 {
        let init = segs.drop_last();
        lemma_transcript_layout(init);
        assert(segs.take(segs.len() as int) =~= segs);
        assert forall|k: int| 0 <= k < segs.len() implies {
            let start = #[trigger] segment_start(segs, k);
            &&& transcript_of(segs).subrange(start, start + segs[k].len()) == segs[k]
            &&& transcript_of(segs)[start + segs[k].len()] == '\n'
            &&& segment_start(segs, k + 1) == start + segs[k].len() + 1
        } by {
            assert(segs.take(k + 1).drop_last() =~= segs.take(k));
            assert(segs.take(k + 1).last() == segs[k]);
            lemma_transcript_prefix(segs, k + 1);
            let start = segment_start(segs, k);
            let t = transcript_of(segs);
            let p = transcript_of(segs.take(k + 1));
            assert(p == transcript_of(segs.take(k)) + segs[k] + seq!['\n']);
            assert(t.subrange(0, p.len() as int) == p);
            assert(t.subrange(start, start + segs[k].len()) =~= p.subrange(start, start + segs[k].len()));
            assert(p[start + segs[k].len()] == '\n');
        }
        assert(segs.take(segs.len() - 1) =~= init);
    }
}

/// The transcription of the first `k` segments is a prefix of the whole.
pub proof fn lemma_transcript_prefix(segs: Seq<Seq<char>>, k: int)
    requires
        0 <= k <= segs.len(),
    ensures
        transcript_of(segs.take(k)).len() <= transcript_of(segs).len(),
        transcript_of(segs).subrange(0, transcript_of(segs.take(k)).len() as int)
            == transcript_of(segs.take(k)),
    decreases segs.len(),
{
    if k == segs.len() {
        assert(segs.take(k) =~= segs);
        assert(transcript_of(segs).subrange(0, transcript_of(segs).len() as int) =~= transcript_of(segs));
    } else {
        let init = segs.drop_last();
        assert(init.take(k) =~= segs.take(k));
        lemma_transcript_prefix(init, k);
        let a = transcript_of(init);
        let t = transcript_of(segs);
        let p = transcript_of(segs.take(k));
        assert(t == a + segs.last() + seq!['\n']);
        assert(t.subrange(0, p.len() as int) =~= a.subrange(0, p.len() as int));
    }
}

/// A transcription of at least one segment is not empty.
pub proof fn lemma_transcript_nonempty(segs: Seq<Seq<char>>)
    requires
        segs.len() > 0,
    ensures
        transcript_of(segs).len() > 0,
{
}

} // verus!
