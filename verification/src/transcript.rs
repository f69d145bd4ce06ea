use vstd::prelude::*;
use vstd::string::StringExecFns;

verus! {

/// The concatenation of all content fragments, in arrival order.
pub open spec fn concat_fragments(frags: Seq<Seq<char>>) -> Seq<char>
    decreases frags.len(),
{
    if frags.len() == 0 {
        Seq::empty()
    } else {
        concat_fragments(frags.drop_last()) + frags.last()
    }
}

/// The header of a per-task transcript artifact: the prompt, then a blank
/// line.
pub open spec fn transcript_header(prompt: Seq<char>) -> Seq<char> {
    prompt + "\n\n"@
}

/// A whole transcript: the header, then every decoded fragment in arrival
/// order.
pub open spec fn transcript_view(prompt: Seq<char>, frags: Seq<Seq<char>>) -> Seq<char> {
    transcript_header(prompt) + concat_fragments(frags)
}

/// Start a transcript: write the prompt and the blank line that separates
/// it from the decoded output.
pub fn begin_transcript(prompt: &str) -> (r: String)
    ensures
        r@ == transcript_header(prompt@),
{
    let mut s = prompt.to_owned();
    s.append("\n\n");
    s
}

/// Append one decoded content fragment, in arrival order.
pub fn append_fragment(transcript: &mut String, fragment: &str)
    ensures
        final(transcript)@ == old(transcript)@ + fragment@,
{
    transcript.append(fragment);
}

/// Build the whole transcript of one task from its prompt and every content
/// fragment it received, in arrival order.
pub fn build_transcript(prompt: &str, fragments: &Vec<String>) -> (r: String)
    ensures
        r@ == transcript_view(prompt@, fragments@.map_values(|f: String| f@)),
{
    let ghost all = fragments@.map_values(|f: String| f@);
    let mut t = begin_transcript(prompt);
    let mut i: usize = 0;
    while i < fragments.len()
        invariant
            0 <= i <= fragments@.len(),
            all == fragments@.map_values(|f: String| f@),
            t@ == transcript_header(prompt@) + concat_fragments(all.take(i as int)),
        decreases fragments@.len() - i,
    {
        proof {
            assert(all.take(i as int + 1).drop_last() =~= all.take(i as int));
        }
        append_fragment(&mut t, fragments[i].as_str());
        proof {
            assert(t@ =~= transcript_header(prompt@) + concat_fragments(all.take(i as int + 1)));
        }
        i = i + 1;
    }
    proof {
        assert(all.take(fragments@.len() as int) =~= all);
    }
    t
}

/// Law: round-trip — in any transcript, what stands after the header is
/// exactly the concatenation of the content fragments received, in arrival
/// order; and what stands before it is exactly the header.
pub proof fn lemma_transcript_round_trip(prompt: Seq<char>, frags: Seq<Seq<char>>)
    ensures
        transcript_view(prompt, frags).skip(transcript_header(prompt).len() as int)
            == concat_fragments(frags),
        transcript_view(prompt, frags).take(transcript_header(prompt).len() as int)
            == transcript_header(prompt),
{
    assert(transcript_view(prompt, frags).skip(transcript_header(prompt).len() as int)
        =~= concat_fragments(frags));
    assert(transcript_view(prompt, frags).take(transcript_header(prompt).len() as int)
        =~= transcript_header(prompt));
}

} // verus!
