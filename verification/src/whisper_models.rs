//! The downloadable speech-to-text models, and where a model file lives.

use vstd::prelude::*;
use crate::text::{chars_of, push_char, string_of};

verus! {

/// A downloadable model: its file name, the name shown to the user, where
/// to fetch it and the SHA-1 of the file.
#[derive(Clone, Copy, Debug)]
pub struct WhisperModel {
    pub file_name: &'static str,
    pub display_name: &'static str,
    pub url: &'static str,
    pub hash: &'static str,
}

impl View for WhisperModel {
    type V = (Seq<char>, Seq<char>, Seq<char>, Seq<char>);

    open spec fn view(&self) -> (Seq<char>, Seq<char>, Seq<char>, Seq<char>) {
        (self.file_name@, self.display_name@, self.url@, self.hash@)
    }
}

/// How many models there are.
pub const WHISPER_MODEL_COUNT: usize = 5;

/// Model `i`: file name, display name, URL and hash.
pub open spec fn model_entry(i: int) -> (Seq<char>, Seq<char>, Seq<char>, Seq<char>) {
    if i == 0 {
        ("ggml-base-q8_0.bin"@, "Base Q8 (78MiB)"@, "https://huggingface.co/ggerganov/whisper.cpp/resolve/main/ggml-base-q8_0.bin"@, "7bb89bb49ed6955013b166f1b6a6c04584a20fbe"@)
    } else if i == 1 {
        ("ggml-small-q8_0.bin"@, "Small Q8 (252MiB)"@, "https://huggingface.co/ggerganov/whisper.cpp/resolve/main/ggml-small-q8_0.bin"@, "bcad8a2083f4e53d648d586b7dbc0cd673d8afad"@)
    } else if i == 2 {
        ("ggml-large-v3-turbo-q5_0.bin"@, "Turbo Q5 (574MiB)"@, "https://huggingface.co/ggerganov/whisper.cpp/resolve/main/ggml-large-v3-turbo-q5_0.bin"@, "e050f7970618a659205450ad97eb95a18d69c9ee"@)
    } else if i == 3 {
        ("ggml-large-v3-turbo-q8_0.bin"@, "Turbo Q8 (874MiB)"@, "https://huggingface.co/ggerganov/whisper.cpp/resolve/main/ggml-large-v3-turbo-q8_0.bin"@, "01bf15bedffe9f39d65c1b6ff9b687ea91f59e0e"@)
    } else {
        ("ggml-large-v3-turbo.bin"@, "Turbo (1.5GiB)"@, "https://huggingface.co/ggerganov/whisper.cpp/resolve/main/ggml-large-v3-turbo.bin"@, "4af2b29d7ec73d781377bfd1758ca957a807e941"@)
    }
}

/// `name` is the last segment of the path of `url`: it is not empty, holds
/// no `/`, and `url` ends with `/` followed by it.
pub open spec fn is_last_url_segment(name: Seq<char>, url: Seq<char>) -> bool {
    &&& 0 < name.len() < url.len()
    &&& url.skip(url.len() - name.len()) == name
    &&& url[url.len() - name.len() - 1] == '/'
    &&& forall|k: int| 0 <= k < name.len() ==> name[k] != '/'
}

/// A URL has at most one last segment.
pub proof fn lemma_last_url_segment_unique(a: Seq<char>, b: Seq<char>, url: Seq<char>)
    requires
        is_last_url_segment(a, url),
        is_last_url_segment(b, url),
    ensures
        a == b,
{
    if a.len() < b.len() {
        let k = b.len() - a.len() - 1;
        assert(b[k] == url.skip(url.len() - b.len())[k]);
        assert(b[k] == '/');
    } else if b.len() < a.len() {
        let k = a.len() - b.len() - 1;
        assert(a[k] == url.skip(url.len() - a.len())[k]);
        assert(a[k] == '/');
    }
}

/// Each model is kept under the file name that its URL downloads: the last
/// segment of the URL.
pub proof fn lemma_model_file_name_is_url_segment(i: int)
    requires
        0 <= i < WHISPER_MODEL_COUNT,
    ensures
        is_last_url_segment(model_entry(i).0, model_entry(i).2),
{
    let name = model_entry(i).0;
    let url = model_entry(i).2;
    if i == 0 {
        reveal_strlit("ggml-base-q8_0.bin");
        reveal_strlit("https://huggingface.co/ggerganov/whisper.cpp/resolve/main/ggml-base-q8_0.bin");
    } else if i == 1 {
        reveal_strlit("ggml-small-q8_0.bin");
        reveal_strlit("https://huggingface.co/ggerganov/whisper.cpp/resolve/main/ggml-small-q8_0.bin");
    } else if i == 2 {
        reveal_strlit("ggml-large-v3-turbo-q5_0.bin");
        reveal_strlit("https://huggingface.co/ggerganov/whisper.cpp/resolve/main/ggml-large-v3-turbo-q5_0.bin");
    } else if i == 3 {
        reveal_strlit("ggml-large-v3-turbo-q8_0.bin");
        reveal_strlit("https://huggingface.co/ggerganov/whisper.cpp/resolve/main/ggml-large-v3-turbo-q8_0.bin");
    } else {
        reveal_strlit("ggml-large-v3-turbo.bin");
        reveal_strlit("https://huggingface.co/ggerganov/whisper.cpp/resolve/main/ggml-large-v3-turbo.bin");
    }
    assert(url.skip(url.len() - name.len()) =~= name);
}

/// The models, smallest first.
pub fn whisper_models() -> (v: Vec<WhisperModel>)
    ensures
        v@.len() == WHISPER_MODEL_COUNT,
        forall|i: int| 0 <= i < WHISPER_MODEL_COUNT ==> (#[trigger] v@[i])@ == model_entry(i),
        forall|i: int|
            0 <= i < WHISPER_MODEL_COUNT ==> is_last_url_segment(
                (#[trigger] v@[i]).file_name@,
                v@[i].url@,
            ),
{
    let mut v: Vec<WhisperModel> = Vec::new();
    v.push(WhisperModel {
        file_name: "ggml-base-q8_0.bin",
        display_name: "Base Q8 (78MiB)",
        url: "https://huggingface.co/ggerganov/whisper.cpp/resolve/main/ggml-base-q8_0.bin",
        hash: "7bb89bb49ed6955013b166f1b6a6c04584a20fbe",
    });
    v.push(WhisperModel {
        file_name: "ggml-small-q8_0.bin",
        display_name: "Small Q8 (252MiB)",
        url: "https://huggingface.co/ggerganov/whisper.cpp/resolve/main/ggml-small-q8_0.bin",
        hash: "bcad8a2083f4e53d648d586b7dbc0cd673d8afad",
    });
    v.push(WhisperModel {
        file_name: "ggml-large-v3-turbo-q5_0.bin",
        display_name: "Turbo Q5 (574MiB)",
        url: "https://huggingface.co/ggerganov/whisper.cpp/resolve/main/ggml-large-v3-turbo-q5_0.bin",
        hash: "e050f7970618a659205450ad97eb95a18d69c9ee",
    });
    v.push(WhisperModel {
        file_name: "ggml-large-v3-turbo-q8_0.bin",
        display_name: "Turbo Q8 (874MiB)",
        url: "https://huggingface.co/ggerganov/whisper.cpp/resolve/main/ggml-large-v3-turbo-q8_0.bin",
        hash: "01bf15bedffe9f39d65c1b6ff9b687ea91f59e0e",
    });
    v.push(WhisperModel {
        file_name: "ggml-large-v3-turbo.bin",
        display_name: "Turbo (1.5GiB)",
        url: "https://huggingface.co/ggerganov/whisper.cpp/resolve/main/ggml-large-v3-turbo.bin",
        hash: "4af2b29d7ec73d781377bfd1758ca957a807e941",
    });
    assert forall|i: int| 0 <= i < WHISPER_MODEL_COUNT implies is_last_url_segment(
        (#[trigger] v@[i]).file_name@,
        v@[i].url@,
    ) by {
        assert(v@[i]@ == model_entry(i));
        lemma_model_file_name_is_url_segment(i);
    }
    v
}

/// `i` is the first model whose file name is `name`.
pub open spec fn is_first_model_named(name: Seq<char>, i: int) -> bool {
    &&& 0 <= i < WHISPER_MODEL_COUNT
    &&& model_entry(i).0 == name
    &&& forall|j: int| 0 <= j < i ==> model_entry(j).0 != name
}

/// The last segment of model `i`'s URL names model `i`, and no model before
/// it.
pub proof fn lemma_url_segment_names_model(i: int, name: Seq<char>)
    requires
        0 <= i < WHISPER_MODEL_COUNT,
        is_last_url_segment(name, model_entry(i).2),
    ensures
        is_first_model_named(name, i),
{
    lemma_model_file_name_is_url_segment(i);
    lemma_last_url_segment_unique(name, model_entry(i).0, model_entry(i).2);
    reveal_strlit("ggml-base-q8_0.bin");
    reveal_strlit("ggml-small-q8_0.bin");
    reveal_strlit("ggml-large-v3-turbo-q5_0.bin");
    reveal_strlit("ggml-large-v3-turbo-q8_0.bin");
    reveal_strlit("ggml-large-v3-turbo.bin");
    assert forall|j: int| 0 <= j < i implies model_entry(j).0 != name by {
        if i == 3 && j == 2 {
            assert(model_entry(j).0[21] != name[21]);
        }
    }
}

/// The model whose file name is `file_name`.
pub fn whisper_model_from_name(file_name: &str) -> (r: Option<WhisperModel>)
    ensures
        match r {
            Some(m) => exists|i: int| is_first_model_named(file_name@, i) && m@ == model_entry(i),
            None => forall|i: int| 0 <= i < WHISPER_MODEL_COUNT ==> model_entry(i).0 != file_name@,
        },
        forall|i: int|
            0 <= i < WHISPER_MODEL_COUNT && is_last_url_segment(file_name@, #[trigger] model_entry(i).2)
                ==> (r matches Some(m) && m@ == model_entry(i)),
{
    proof {
        assert forall|i: int|
            0 <= i < WHISPER_MODEL_COUNT && is_last_url_segment(
                file_name@,
                #[trigger] model_entry(i).2,
            ) implies is_first_model_named(file_name@, i) by {
            lemma_url_segment_names_model(i, file_name@);
        }
    }
    let models = whisper_models();
    let wanted = chars_of(file_name);
    let mut i: usize = 0;
    while i < models.len()
        invariant
            models@.len() == WHISPER_MODEL_COUNT,
            forall|k: int| 0 <= k < WHISPER_MODEL_COUNT ==> (#[trigger] models@[k])@ == model_entry(k),
            wanted@ == file_name@,
            i <= WHISPER_MODEL_COUNT,
            forall|j: int| 0 <= j < i ==> model_entry(j).0 != file_name@,
            forall|k: int|
                0 <= k < WHISPER_MODEL_COUNT && is_last_url_segment(
                    file_name@,
                    #[trigger] model_entry(k).2,
                ) ==> is_first_model_named(file_name@, k),
        decreases WHISPER_MODEL_COUNT - i,
    {
        let name = chars_of(models[i].file_name);
        assert(models@[i as int]@ == model_entry(i as int));
        if crate::text::chars_eq(name.as_slice(), wanted.as_slice()) {
            assert(is_first_model_named(file_name@, i as int));
            return Some(models[i]);
        }
        i = i + 1;
    }
    None
}

/// A path joined onto another on Unix (`Path::join`): an absolute `name`
/// (one that starts with `/`) replaces `base`; otherwise `name` follows
/// `base`, with a `/` between them when `base` is non-empty and does not
/// already end in one.
pub open spec fn joined_path(base: Seq<char>, name: Seq<char>) -> Seq<char> {
    if name.len() > 0 && name[0] == '/' {
        name
    } else if base.len() > 0 && base.last() != '/' {
        base + seq!['/'] + name
    } else {
        base + name
    }
}

/// Where the model file `file_name` is kept inside the model folder.
pub fn whisper_model_path(folder: &str, file_name: &str) -> (r: String)
    ensures
        r@ == joined_path(folder@, file_name@),
{
    let base = chars_of(folder);
    let name = chars_of(file_name);
    if name.len() > 0 && name[0] == '/' {
        return string_of(name.as_slice());
    }
    let mut r = string_of(base.as_slice());
    if base.len() > 0 && base[base.len() - 1] != '/' {
        push_char(&mut r, '/');
    }
    r.append(file_name);
    r
}

} // verus!
