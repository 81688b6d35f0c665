//! Model-file resolution.
//!
//! The pipeline needs a local speech model (one `ggml-<name>.bin` file) and,
//! for diarization, a segmentation and an embedding model. The caller lists
//! the model directory and hands the plain file names (and sizes) in; the
//! decisions — which file is the model, what its name is, whether the
//! pipeline may start — are made and verified here. A missing model fails
//! fast with a user-facing message.

use vstd::prelude::*;
use vstd::string::StrSliceExecFns;
use vstd::string::StringExecFns;
use crate::text::{str_ends_with, str_starts_with};

verus! {

/// Which speech model is downloaded, if any.
#[derive(Debug)]
pub struct ModelStatus {
    pub downloaded_model: Option<String>,
    pub model_size_bytes: Option<u64>,
    pub models_dir: String,
}

/// Which diarization models are downloaded.
#[derive(Debug)]
pub struct DiarizationModelStatus {
    pub segmentation_downloaded: bool,
    pub embedding_downloaded: bool,
    pub models_dir: String,
}

/// A speech model file is named `ggml-<name>.bin`.
pub open spec fn is_model_file(name: Seq<char>) -> bool {
    "ggml-"@.is_prefix_of(name) && ".bin"@.is_suffix_of(name)
}

/// `s` with every copy of the leading `p` removed.
pub open spec fn trim_prefix_rec(s: Seq<char>, p: Seq<char>) -> Seq<char>
    decreases s.len(),
{
    if 0 < p.len() && p.is_prefix_of(s) {
        trim_prefix_rec(s.skip(p.len() as int), p)
    } else {
        s
    }
}

/// `s` with every copy of the trailing `p` removed.
pub open spec fn trim_suffix_rec(s: Seq<char>, p: Seq<char>) -> Seq<char>
    decreases s.len(),
{
    if 0 < p.len() && p.is_suffix_of(s) {
        trim_suffix_rec(s.take(s.len() - p.len()), p)
    } else {
        s
    }
}

/// The model's name: the file name without its `ggml-` prefixes and `.bin`
/// suffixes.
pub open spec fn spec_model_name(name: Seq<char>) -> Seq<char> {
    trim_suffix_rec(trim_prefix_rec(name, "ggml-"@), ".bin"@)
}

/// `s` with every copy of the leading `prefix` removed.
pub fn trim_prefix_all<'a>(s: &'a str, prefix: &str) -> (r: &'a str)
    requires
        prefix@.len() > 0,
    ensures
        r@ == trim_prefix_rec(s@, prefix@),
{
    let plen = prefix.unicode_len();
    let mut cur: &str = s;
    loop
        invariant
            plen == prefix@.len(),
            plen > 0,
            trim_prefix_rec(cur@, prefix@) == trim_prefix_rec(s@, prefix@),
        decreases cur@.len(),
    {
        if !str_starts_with(cur, prefix) {
            return cur;
        }
        let len = cur.unicode_len();
        let next = cur.substring_char(plen, len);
        proof {
            assert(next@ =~= cur@.skip(plen as int));
        }
        cur = next;
    }
}

/// `s` with every copy of the trailing `suffix` removed.
pub fn trim_suffix_all<'a>(s: &'a str, suffix: &str) -> (r: &'a str)
    requires
        suffix@.len() > 0,
    ensures
        r@ == trim_suffix_rec(s@, suffix@),
{
    let plen = suffix.unicode_len();
    let mut cur: &str = s;
    loop
        invariant
            plen == suffix@.len(),
            plen > 0,
            trim_suffix_rec(cur@, suffix@) == trim_suffix_rec(s@, suffix@),
        decreases cur@.len(),
    {
        if !str_ends_with(cur, suffix) {
            return cur;
        }
        let len = cur.unicode_len();
        let next = cur.substring_char(0, len - plen);
        proof {
            assert(next@ =~= cur@.take(cur@.len() - plen as int));
        }
        cur = next;
    }
}

/// Whether one file name names a speech model.
pub fn is_model_file_name(name: &str) -> (r: bool)
    ensures
        r == is_model_file(name@),
{
    str_starts_with(name, "ggml-") && str_ends_with(name, ".bin")
}

/// The index of the first model file among the names, if any.
pub open spec fn first_model_index(names: Seq<Seq<char>>) -> Option<int>
    decreases names.len(),
{
    if names.len() == 0 {
        None
    } else if is_model_file(names[0]) {
        Some(0int)
    } else {
        match first_model_index(names.drop_first()) {
            Some(i) => Some(i + 1),
            None => None,
        }
    }
}

/// The views of a vector of strings.
pub open spec fn names_view(s: Seq<String>) -> Seq<Seq<char>> {
    s.map_values(|x: String| x@)
}

proof fn lemma_first_model_index_skip(names: Seq<Seq<char>>, i: int)
    requires
        0 <= i < names.len(),
        forall|j: int| 0 <= j < i ==> !is_model_file(#[trigger] names[j]),
    ensures
        first_model_index(names) == match first_model_index(names.skip(i)) {
            Some(k) => Some(k + i),
            None => None::<int>,
        },
    decreases i,
{
    if i > 0 {
        lemma_first_model_index_skip(names, i - 1);
        assert(names.skip(i - 1).drop_first() =~= names.skip(i));
        assert(names.skip(i - 1)[0] == names[i - 1]);
    } else {
        assert(names.skip(0) =~= names);
    }
}

/// Finds the first speech model among the directory's file names. Returns
/// the model's name (the file name without `ggml-`/`.bin`) and the file's
/// index, or `None` when no model file is present — the caller then fails
/// fast.
pub fn find_model_in(names: &Vec<String>) -> (r: Option<(String, usize)>)
    ensures
        match r {
            Some(t) => {
                &&& first_model_index(names_view(names@)) == Some(t.1 as int)
                &&& t.0@ == spec_model_name(names@[t.1 as int]@)
            },
            None => first_model_index(names_view(names@)) is None,
        },
{
    let ghost vs = names_view(names@);
    let n = names.len();
    let mut i: usize = 0;
    while i < n
        invariant
            n == vs.len(),
            i <= n,
            vs == names_view(names@),
            forall|j: int| 0 <= j < i ==> !is_model_file(#[trigger] vs[j]),
        decreases n - i,
    {
        proof {
            reveal_strlit("ggml-");
            reveal_strlit(".bin");
            assert(vs[i as int] == names@[i as int]@);
        }
        if is_model_file_name(names[i].as_str()) {
            let trimmed = trim_suffix_all(trim_prefix_all(names[i].as_str(), "ggml-"), ".bin");
            proof {
                lemma_first_model_index_skip(vs, i as int);
                assert(vs.skip(i as int)[0] == vs[i as int]);
            }
            return Some((trimmed.to_owned(), i));
        }
        i = i + 1;
    }
    proof {
        if n == 0 {
            assert(first_model_index(vs) is None);
        } else {
            lemma_first_model_index_skip(vs, n as int - 1);
            let tail = vs.skip(n as int - 1);
            assert(tail[0] == vs[n as int - 1]);
            assert(!is_model_file(tail[0]));
            assert(tail.drop_first() =~= vs.skip(n as int));
            assert(vs.skip(n as int).len() == 0);
            assert(first_model_index(tail.drop_first()) is None);
            assert(first_model_index(tail) is None);
        }
    }
    None
}

/// Whether a model file of the given size is a usable download: present and
/// not empty.
pub fn file_is_usable(size: Option<u64>) -> (r: bool)
    ensures
        r == (size matches Some(s) && s > 0),
{
    match size {
        Some(s) => s > 0,
        None => false,
    }
}

/// Whether any listed file is a non-empty `.onnx` embedding model.
pub fn embedding_model_present(names: &Vec<String>, sizes: &Vec<u64>) -> (r: bool)
    requires
        names@.len() == sizes@.len(),
    ensures
        r == exists|i: int|
            0 <= i < names@.len() && ".onnx"@.is_suffix_of(#[trigger] names@[i]@) && sizes@[i] > 0,
{
    let n = names.len();
    let mut i: usize = 0;
    while i < n
        invariant
            n == names@.len(),
            n == sizes@.len(),
            i <= n,
            forall|j: int|
                0 <= j < i ==> !(".onnx"@.is_suffix_of(#[trigger] names@[j]@) && sizes@[j] > 0),
        decreases n - i,
    {
        if str_ends_with(names[i].as_str(), ".onnx") && sizes[i] > 0 {
            return true;
        }
        i = i + 1;
    }
    false
}

/// Admits the diarization stage only with both models present; the error
/// names the missing model, as the user sees it.
pub fn check_diarization_models(segmentation_present: bool, embedding_present: bool) -> (r: Result<
    (),
    String,
>)
    ensures
        segmentation_present && embedding_present ==> r is Ok,
        !segmentation_present ==> (r matches Err(m) && m@
            == "Segmentierungsmodell nicht heruntergeladen. Bitte zuerst die Diarisierungsmodelle in den Einstellungen herunterladen."@),
        segmentation_present && !embedding_present ==> (r matches Err(m) && m@
            == "Erkennungsmodell nicht heruntergeladen. Bitte zuerst die Diarisierungsmodelle in den Einstellungen herunterladen."@),
{
    if !segmentation_present {
        Err(
            (
            "Segmentierungsmodell nicht heruntergeladen. Bitte zuerst die Diarisierungsmodelle in den Einstellungen herunterladen."
            ).to_owned(),
        )
    } else if !embedding_present {
        Err(
            (
            "Erkennungsmodell nicht heruntergeladen. Bitte zuerst die Diarisierungsmodelle in den Einstellungen herunterladen."
            ).to_owned(),
        )
    } else {
        Ok(())
    }
}

/// The missing-speech-model message shown when transcription is started
/// without a downloaded model.
pub fn missing_speech_model_error() -> (r: String)
    ensures
        r@
            == "Kein Whisper-Modell heruntergeladen. Bitte zuerst ein Modell in den Einstellungen herunterladen."@,
{
    (
    "Kein Whisper-Modell heruntergeladen. Bitte zuerst ein Modell in den Einstellungen herunterladen."
    ).to_owned()
}

/// The transcription language: the stored setting, or German when none is
/// stored.
pub fn language_or_default(setting: Option<String>) -> (r: String)
    ensures
        match setting {
            Some(ref s) => r@ == s@,
            None => r@ == "de"@,
        },
{
    match setting {
        Some(s) => s,
        None => ("de").to_owned(),
    }
}

} // verus!
