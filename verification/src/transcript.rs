//! The text that a transcription yields.
use vstd::prelude::*;
use crate::slug::{url_slug, url_to_slug};
use crate::text::{append, char_is_whitespace, lemma_trim_shape, trim, trim_str};

verus! {

/// The texts of the segments that could be read, one after the other.
pub open spec fn segments_text(segments: Seq<Option<String>>) -> Seq<char>
    decreases segments.len(),
{
    if segments.len() == 0 {
        Seq::empty()
    } else {
        segments_text(segments.drop_last()) + match segments.last() {
            Some(s) => s@,
            None => Seq::empty(),
        }
    }
}

/// The transcript: the texts of the readable segments joined without
/// separator, then trimmed; `None` stands for a segment that could not be
/// read and is left out.
pub fn transcript_text(segments: &Vec<Option<String>>) -> (t: String)
    ensures
        t@ == trim(segments_text(segments@)),
{
    let mut all = String::new();
    let mut i: usize = 0;
    while i < segments.len()
        invariant
            i <= segments@.len(),
            all@ == segments_text(segments@.take(i as int)),
        decreases segments.len() - i,
    {
        assert(segments@.take(i + 1).drop_last() =~= segments@.take(i as int));
        match &segments[i] {
            Some(s) => {
                append(&mut all, s.as_str());
            },
            None => {
                assert(all@ =~= all@ + Seq::<char>::empty());
            },
        }
        i = i + 1;
    }
    assert(segments@.take(segments@.len() as int) =~= segments@);
    trim_str(all.as_str())
}

/// Each readable segment adds its whole text at the end and an unreadable
/// one adds nothing, whatever came before.
pub proof fn lemma_segment_appends(segments: Seq<Option<String>>, s: String)
    ensures
        segments_text(segments.push(Some(s))) == segments_text(segments) + s@,
        segments_text(segments.push(None)) == segments_text(segments),
{
    assert(segments.push(Some(s)).drop_last() =~= segments);
    assert(segments.push(None::<String>).drop_last() =~= segments);
}

/// The text of two runs of segments is the text of the first followed by the
/// text of the second; nothing is dropped or merged at the seam.
pub proof fn lemma_segments_concat(a: Seq<Option<String>>, b: Seq<Option<String>>)
    ensures
        segments_text(a + b) == segments_text(a) + segments_text(b),
    decreases b.len(),
{
    if b.len() == 0 {
        assert(a + b =~= a);
        assert(segments_text(b) =~= Seq::<char>::empty());
        assert(segments_text(a) + Seq::<char>::empty() =~= segments_text(a));
    } else {
        lemma_segments_concat(a, b.drop_last());
        assert((a + b).drop_last() =~= a + b.drop_last());
        assert((a + b).last() == b.last());
        let tail = match b.last() {
            Some(x) => x@,
            None => Seq::<char>::empty(),
        };
        assert(segments_text(a) + segments_text(b.drop_last()) + tail =~= segments_text(a) + (segments_text(
            b.drop_last(),
        ) + tail));
    }
}

/// The length of the text of readable segments.
pub open spec fn readable_len(segments: Seq<Option<String>>) -> nat
    decreases segments.len(),
{
    if segments.len() == 0 {
        0
    } else {
        readable_len(segments.drop_last()) + match segments.last() {
            Some(s) => s@.len(),
            None => 0,
        }
    }
}

/// Before trimming, the transcript is as long as all readable segments
/// together.
pub proof fn lemma_segments_len(segments: Seq<Option<String>>)
    ensures
        segments_text(segments).len() == readable_len(segments),
    decreases segments.len(),
{
    if segments.len() > 0 {
        lemma_segments_len(segments.drop_last());
    }
}

/// A transcript neither begins nor ends with whitespace, and trimming it
/// again changes nothing.
pub proof fn lemma_transcript_trimmed(segments: Seq<Option<String>>)
    ensures
        trim(segments_text(segments)).len() > 0 ==> !char_is_whitespace(trim(segments_text(segments))[0])
            && !char_is_whitespace(trim(segments_text(segments)).last()),
        trim(trim(segments_text(segments))) == trim(segments_text(segments)),
{
    lemma_trim_shape(segments_text(segments));
}

/// The language reported for a transcript: the one asked for; where none
/// was asked for, the one the recognizer detected; `unknown` where it
/// detected none.
pub fn detected_language(requested: Option<&str>, detected: Option<&str>) -> (l: String)
    ensures
        l@ == (match requested {
            Some(s) => s@,
            None => match detected {
                Some(d) => d@,
                None => "unknown"@,
            },
        }),
{
    match requested {
        Some(s) => s.to_owned(),
        None => match detected {
            Some(d) => d.to_owned(),
            None => "unknown".to_owned(),
        },
    }
}

/// The directory a local file's transcript is written to: the one asked
/// for, else the directory of the source file, else `.`.
pub fn transcript_output_dir(output_dir: Option<String>, source_parent: Option<String>) -> (d: String)
    ensures
        d@ == (match output_dir {
            Some(o) => o@,
            None => match source_parent {
                Some(p) => p@,
                None => "."@,
            },
        }),
{
    match output_dir {
        Some(o) => o,
        None => match source_parent {
            Some(p) => p,
            None => ".".to_owned(),
        },
    }
}

/// The file name of the transcript of a local file: the file's stem (or
/// `transcript` where it has none) with the extension `.txt`.
pub fn transcript_file_name(stem: Option<&str>) -> (n: String)
    ensures
        n@ == (match stem {
            Some(s) => s@,
            None => "transcript"@,
        }) + ".txt"@,
{
    let mut n = match stem {
        Some(s) => s.to_owned(),
        None => "transcript".to_owned(),
    };
    append(&mut n, ".txt");
    n
}

/// The file name of the transcript of a video URL: its slug with the
/// extension `.txt`.
pub fn url_transcript_file_name(url: &str) -> (n: String)
    ensures
        n@ == url_slug(url@) + ".txt"@,
{
    let mut n = url_to_slug(url);
    append(&mut n, ".txt");
    n
}

} // verus!
