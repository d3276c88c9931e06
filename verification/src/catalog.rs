use crate::text::same_text;
use vstd::prelude::*;

verus! {

/// Descriptor of one selectable speech model: its name, the file it is stored
/// under, where it is fetched from and its expected size.
#[derive(Clone, Copy, Debug)]
pub struct ModelInfo {
    pub name: &'static str,
    pub filename: &'static str,
    pub url: &'static str,
    pub size_mb: u32,
}

/// The model that must always be available.
pub const DEFAULT_MODEL: &'static str = "tiny.en-q5_1";

/// The catalog: every selectable model, in presentation order.
pub open spec fn catalog() -> Seq<ModelInfo> {
    seq![
        ModelInfo {
            name: "tiny",
            filename: "ggml-tiny.bin",
            url: "https://huggingface.co/ggerganov/whisper.cpp/resolve/main/ggml-tiny.bin",
            size_mb: 75,
        },
        ModelInfo {
            name: "tiny.en",
            filename: "ggml-tiny.en.bin",
            url: "https://huggingface.co/ggerganov/whisper.cpp/resolve/main/ggml-tiny.en.bin",
            size_mb: 75,
        },
        ModelInfo {
            name: "tiny-q5_1",
            filename: "ggml-tiny-q5_1.bin",
            url: "https://huggingface.co/ggerganov/whisper.cpp/resolve/main/ggml-tiny-q5_1.bin",
            size_mb: 31,
        },
        ModelInfo {
            name: "tiny.en-q5_1",
            filename: "ggml-tiny.en-q5_1.bin",
            url: "https://huggingface.co/ggerganov/whisper.cpp/resolve/main/ggml-tiny.en-q5_1.bin",
            size_mb: 31,
        },
        ModelInfo {
            name: "tiny-q8_0",
            filename: "ggml-tiny-q8_0.bin",
            url: "https://huggingface.co/ggerganov/whisper.cpp/resolve/main/ggml-tiny-q8_0.bin",
            size_mb: 42,
        },
        ModelInfo {
            name: "tiny.en-q8_0",
            filename: "ggml-tiny.en-q8_0.bin",
            url: "https://huggingface.co/ggerganov/whisper.cpp/resolve/main/ggml-tiny.en-q8_0.bin",
            size_mb: 42,
        },
        ModelInfo {
            name: "base",
            filename: "ggml-base.bin",
            url: "https://huggingface.co/ggerganov/whisper.cpp/resolve/main/ggml-base.bin",
            size_mb: 142,
        },
        ModelInfo {
            name: "base.en",
            filename: "ggml-base.en.bin",
            url: "https://huggingface.co/ggerganov/whisper.cpp/resolve/main/ggml-base.en.bin",
            size_mb: 142,
        },
        ModelInfo {
            name: "base-q5_1",
            filename: "ggml-base-q5_1.bin",
            url: "https://huggingface.co/ggerganov/whisper.cpp/resolve/main/ggml-base-q5_1.bin",
            size_mb: 57,
        },
        ModelInfo {
            name: "base.en-q5_1",
            filename: "ggml-base.en-q5_1.bin",
            url: "https://huggingface.co/ggerganov/whisper.cpp/resolve/main/ggml-base.en-q5_1.bin",
            size_mb: 57,
        },
        ModelInfo {
            name: "base-q8_0",
            filename: "ggml-base-q8_0.bin",
            url: "https://huggingface.co/ggerganov/whisper.cpp/resolve/main/ggml-base-q8_0.bin",
            size_mb: 78,
        },
        ModelInfo {
            name: "base.en-q8_0",
            filename: "ggml-base.en-q8_0.bin",
            url: "https://huggingface.co/ggerganov/whisper.cpp/resolve/main/ggml-base.en-q8_0.bin",
            size_mb: 78,
        },
        ModelInfo {
            name: "small",
            filename: "ggml-small.bin",
            url: "https://huggingface.co/ggerganov/whisper.cpp/resolve/main/ggml-small.bin",
            size_mb: 466,
        },
        ModelInfo {
            name: "small.en",
            filename: "ggml-small.en.bin",
            url: "https://huggingface.co/ggerganov/whisper.cpp/resolve/main/ggml-small.en.bin",
            size_mb: 466,
        },
        ModelInfo {
            name: "small-q5_1",
            filename: "ggml-small-q5_1.bin",
            url: "https://huggingface.co/ggerganov/whisper.cpp/resolve/main/ggml-small-q5_1.bin",
            size_mb: 181,
        },
        ModelInfo {
            name: "small.en-q5_1",
            filename: "ggml-small.en-q5_1.bin",
            url: "https://huggingface.co/ggerganov/whisper.cpp/resolve/main/ggml-small.en-q5_1.bin",
            size_mb: 181,
        },
        ModelInfo {
            name: "small-q8_0",
            filename: "ggml-small-q8_0.bin",
            url: "https://huggingface.co/ggerganov/whisper.cpp/resolve/main/ggml-small-q8_0.bin",
            size_mb: 252,
        },
        ModelInfo {
            name: "small.en-q8_0",
            filename: "ggml-small.en-q8_0.bin",
            url: "https://huggingface.co/ggerganov/whisper.cpp/resolve/main/ggml-small.en-q8_0.bin",
            size_mb: 252,
        },
        ModelInfo {
            name: "medium",
            filename: "ggml-medium.bin",
            url: "https://huggingface.co/ggerganov/whisper.cpp/resolve/main/ggml-medium.bin",
            size_mb: 1536,
        },
        ModelInfo {
            name: "medium.en",
            filename: "ggml-medium.en.bin",
            url: "https://huggingface.co/ggerganov/whisper.cpp/resolve/main/ggml-medium.en.bin",
            size_mb: 1536,
        },
        ModelInfo {
            name: "medium-q5_0",
            filename: "ggml-medium-q5_0.bin",
            url: "https://huggingface.co/ggerganov/whisper.cpp/resolve/main/ggml-medium-q5_0.bin",
            size_mb: 514,
        },
        ModelInfo {
            name: "medium.en-q5_0",
            filename: "ggml-medium.en-q5_0.bin",
            url: "https://huggingface.co/ggerganov/whisper.cpp/resolve/main/ggml-medium.en-q5_0.bin",
            size_mb: 514,
        },
        ModelInfo {
            name: "medium-q8_0",
            filename: "ggml-medium-q8_0.bin",
            url: "https://huggingface.co/ggerganov/whisper.cpp/resolve/main/ggml-medium-q8_0.bin",
            size_mb: 785,
        },
        ModelInfo {
            name: "medium.en-q8_0",
            filename: "ggml-medium.en-q8_0.bin",
            url: "https://huggingface.co/ggerganov/whisper.cpp/resolve/main/ggml-medium.en-q8_0.bin",
            size_mb: 785,
        },
        ModelInfo {
            name: "large-v3",
            filename: "ggml-large-v3.bin",
            url: "https://huggingface.co/ggerganov/whisper.cpp/resolve/main/ggml-large-v3.bin",
            size_mb: 2965,
        },
        ModelInfo {
            name: "large-v3-q5_0",
            filename: "ggml-large-v3-q5_0.bin",
            url: "https://huggingface.co/ggerganov/whisper.cpp/resolve/main/ggml-large-v3-q5_0.bin",
            size_mb: 1126,
        },
        ModelInfo {
            name: "large-v3-turbo",
            filename: "ggml-large-v3-turbo.bin",
            url: "https://huggingface.co/ggerganov/whisper.cpp/resolve/main/ggml-large-v3-turbo.bin",
            size_mb: 1536,
        },
        ModelInfo {
            name: "large-v3-turbo-q5_0",
            filename: "ggml-large-v3-turbo-q5_0.bin",
            url: "https://huggingface.co/ggerganov/whisper.cpp/resolve/main/ggml-large-v3-turbo-q5_0.bin",
            size_mb: 547,
        },
        ModelInfo {
            name: "large-v3-turbo-q8_0",
            filename: "ggml-large-v3-turbo-q8_0.bin",
            url: "https://huggingface.co/ggerganov/whisper.cpp/resolve/main/ggml-large-v3-turbo-q8_0.bin",
            size_mb: 834,
        },
    ]
}

/// Whether `name` is the name of a catalog entry.
pub open spec fn known_model(name: Seq<char>) -> bool {
    exists|i: int| 0 <= i < catalog().len() && #[trigger] catalog()[i].name@ == name
}

/// The position in the catalog of the entry called `name`.
pub open spec fn catalog_index(name: Seq<char>) -> int {
    choose|i: int| 0 <= i < catalog().len() && #[trigger] catalog()[i].name@ == name
}

/// The catalog entry called `name`.
pub open spec fn model_named(name: Seq<char>) -> ModelInfo {
    catalog()[catalog_index(name)]
}

/// All selectable models.
pub fn get_available_models() -> (v: Vec<ModelInfo>)
    ensures
        v@ == catalog(),
{
    vec![
        ModelInfo {
            name: "tiny",
            filename: "ggml-tiny.bin",
            url: "https://huggingface.co/ggerganov/whisper.cpp/resolve/main/ggml-tiny.bin",
            size_mb: 75,
        },
        ModelInfo {
            name: "tiny.en",
            filename: "ggml-tiny.en.bin",
            url: "https://huggingface.co/ggerganov/whisper.cpp/resolve/main/ggml-tiny.en.bin",
            size_mb: 75,
        },
        ModelInfo {
            name: "tiny-q5_1",
            filename: "ggml-tiny-q5_1.bin",
            url: "https://huggingface.co/ggerganov/whisper.cpp/resolve/main/ggml-tiny-q5_1.bin",
            size_mb: 31,
        },
        ModelInfo {
            name: "tiny.en-q5_1",
            filename: "ggml-tiny.en-q5_1.bin",
            url: "https://huggingface.co/ggerganov/whisper.cpp/resolve/main/ggml-tiny.en-q5_1.bin",
            size_mb: 31,
        },
        ModelInfo {
            name: "tiny-q8_0",
            filename: "ggml-tiny-q8_0.bin",
            url: "https://huggingface.co/ggerganov/whisper.cpp/resolve/main/ggml-tiny-q8_0.bin",
            size_mb: 42,
        },
        ModelInfo {
            name: "tiny.en-q8_0",
            filename: "ggml-tiny.en-q8_0.bin",
            url: "https://huggingface.co/ggerganov/whisper.cpp/resolve/main/ggml-tiny.en-q8_0.bin",
            size_mb: 42,
        },
        ModelInfo {
            name: "base",
            filename: "ggml-base.bin",
            url: "https://huggingface.co/ggerganov/whisper.cpp/resolve/main/ggml-base.bin",
            size_mb: 142,
        },
        ModelInfo {
            name: "base.en",
            filename: "ggml-base.en.bin",
            url: "https://huggingface.co/ggerganov/whisper.cpp/resolve/main/ggml-base.en.bin",
            size_mb: 142,
        },
        ModelInfo {
            name: "base-q5_1",
            filename: "ggml-base-q5_1.bin",
            url: "https://huggingface.co/ggerganov/whisper.cpp/resolve/main/ggml-base-q5_1.bin",
            size_mb: 57,
        },
        ModelInfo {
            name: "base.en-q5_1",
            filename: "ggml-base.en-q5_1.bin",
            url: "https://huggingface.co/ggerganov/whisper.cpp/resolve/main/ggml-base.en-q5_1.bin",
            size_mb: 57,
        },
        ModelInfo {
            name: "base-q8_0",
            filename: "ggml-base-q8_0.bin",
            url: "https://huggingface.co/ggerganov/whisper.cpp/resolve/main/ggml-base-q8_0.bin",
            size_mb: 78,
        },
        ModelInfo {
            name: "base.en-q8_0",
            filename: "ggml-base.en-q8_0.bin",
            url: "https://huggingface.co/ggerganov/whisper.cpp/resolve/main/ggml-base.en-q8_0.bin",
            size_mb: 78,
        },
        ModelInfo {
            name: "small",
            filename: "ggml-small.bin",
            url: "https://huggingface.co/ggerganov/whisper.cpp/resolve/main/ggml-small.bin",
            size_mb: 466,
        },
        ModelInfo {
            name: "small.en",
            filename: "ggml-small.en.bin",
            url: "https://huggingface.co/ggerganov/whisper.cpp/resolve/main/ggml-small.en.bin",
            size_mb: 466,
        },
        ModelInfo {
            name: "small-q5_1",
            filename: "ggml-small-q5_1.bin",
            url: "https://huggingface.co/ggerganov/whisper.cpp/resolve/main/ggml-small-q5_1.bin",
            size_mb: 181,
        },
        ModelInfo {
            name: "small.en-q5_1",
            filename: "ggml-small.en-q5_1.bin",
            url: "https://huggingface.co/ggerganov/whisper.cpp/resolve/main/ggml-small.en-q5_1.bin",
            size_mb: 181,
        },
        ModelInfo {
            name: "small-q8_0",
            filename: "ggml-small-q8_0.bin",
            url: "https://huggingface.co/ggerganov/whisper.cpp/resolve/main/ggml-small-q8_0.bin",
            size_mb: 252,
        },
        ModelInfo {
            name: "small.en-q8_0",
            filename: "ggml-small.en-q8_0.bin",
            url: "https://huggingface.co/ggerganov/whisper.cpp/resolve/main/ggml-small.en-q8_0.bin",
            size_mb: 252,
        },
        ModelInfo {
            name: "medium",
            filename: "ggml-medium.bin",
            url: "https://huggingface.co/ggerganov/whisper.cpp/resolve/main/ggml-medium.bin",
            size_mb: 1536,
        },
        ModelInfo {
            name: "medium.en",
            filename: "ggml-medium.en.bin",
            url: "https://huggingface.co/ggerganov/whisper.cpp/resolve/main/ggml-medium.en.bin",
            size_mb: 1536,
        },
        ModelInfo {
            name: "medium-q5_0",
            filename: "ggml-medium-q5_0.bin",
            url: "https://huggingface.co/ggerganov/whisper.cpp/resolve/main/ggml-medium-q5_0.bin",
            size_mb: 514,
        },
        ModelInfo {
            name: "medium.en-q5_0",
            filename: "ggml-medium.en-q5_0.bin",
            url: "https://huggingface.co/ggerganov/whisper.cpp/resolve/main/ggml-medium.en-q5_0.bin",
            size_mb: 514,
        },
        ModelInfo {
            name: "medium-q8_0",
            filename: "ggml-medium-q8_0.bin",
            url: "https://huggingface.co/ggerganov/whisper.cpp/resolve/main/ggml-medium-q8_0.bin",
            size_mb: 785,
        },
        ModelInfo {
            name: "medium.en-q8_0",
            filename: "ggml-medium.en-q8_0.bin",
            url: "https://huggingface.co/ggerganov/whisper.cpp/resolve/main/ggml-medium.en-q8_0.bin",
            size_mb: 785,
        },
        ModelInfo {
            name: "large-v3",
            filename: "ggml-large-v3.bin",
            url: "https://huggingface.co/ggerganov/whisper.cpp/resolve/main/ggml-large-v3.bin",
            size_mb: 2965,
        },
        ModelInfo {
            name: "large-v3-q5_0",
            filename: "ggml-large-v3-q5_0.bin",
            url: "https://huggingface.co/ggerganov/whisper.cpp/resolve/main/ggml-large-v3-q5_0.bin",
            size_mb: 1126,
        },
        ModelInfo {
            name: "large-v3-turbo",
            filename: "ggml-large-v3-turbo.bin",
            url: "https://huggingface.co/ggerganov/whisper.cpp/resolve/main/ggml-large-v3-turbo.bin",
            size_mb: 1536,
        },
        ModelInfo {
            name: "large-v3-turbo-q5_0",
            filename: "ggml-large-v3-turbo-q5_0.bin",
            url: "https://huggingface.co/ggerganov/whisper.cpp/resolve/main/ggml-large-v3-turbo-q5_0.bin",
            size_mb: 547,
        },
        ModelInfo {
            name: "large-v3-turbo-q8_0",
            filename: "ggml-large-v3-turbo-q8_0.bin",
            url: "https://huggingface.co/ggerganov/whisper.cpp/resolve/main/ggml-large-v3-turbo-q8_0.bin",
            size_mb: 834,
        },
    ]
}

/// No two catalog entries share a name.
pub proof fn catalog_names_distinct()
    ensures
        forall|i: int, j: int|
            0 <= i < j < catalog().len() ==> #[trigger] catalog()[i].name@ != #[trigger] catalog()[j].name@,
{
    let names = catalog().map_values(|m: ModelInfo| m.name@);
    reveal_strlit("tiny");
    reveal_strlit("tiny.en");
    reveal_strlit("tiny-q5_1");
    reveal_strlit("tiny.en-q5_1");
    reveal_strlit("tiny-q8_0");
    reveal_strlit("tiny.en-q8_0");
    reveal_strlit("base");
    reveal_strlit("base.en");
    reveal_strlit("base-q5_1");
    reveal_strlit("base.en-q5_1");
    reveal_strlit("base-q8_0");
    reveal_strlit("base.en-q8_0");
    reveal_strlit("small");
    reveal_strlit("small.en");
    reveal_strlit("small-q5_1");
    reveal_strlit("small.en-q5_1");
    reveal_strlit("small-q8_0");
    reveal_strlit("small.en-q8_0");
    reveal_strlit("medium");
    reveal_strlit("medium.en");
    reveal_strlit("medium-q5_0");
    reveal_strlit("medium.en-q5_0");
    reveal_strlit("medium-q8_0");
    reveal_strlit("medium.en-q8_0");
    reveal_strlit("large-v3");
    reveal_strlit("large-v3-q5_0");
    reveal_strlit("large-v3-turbo");
    reveal_strlit("large-v3-turbo-q5_0");
    reveal_strlit("large-v3-turbo-q8_0");
    assert("tiny"@.len() == 4);
    assert("tiny.en"@.len() == 7);
    assert("tiny-q5_1"@.len() == 9);
    assert("tiny.en-q5_1"@.len() == 12);
    assert("tiny-q8_0"@.len() == 9);
    assert("tiny.en-q8_0"@.len() == 12);
    assert("base"@.len() == 4);
    assert("base.en"@.len() == 7);
    assert("base-q5_1"@.len() == 9);
    assert("base.en-q5_1"@.len() == 12);
    assert("base-q8_0"@.len() == 9);
    assert("base.en-q8_0"@.len() == 12);
    assert("small"@.len() == 5);
    assert("small.en"@.len() == 8);
    assert("small-q5_1"@.len() == 10);
    assert("small.en-q5_1"@.len() == 13);
    assert("small-q8_0"@.len() == 10);
    assert("small.en-q8_0"@.len() == 13);
    assert("medium"@.len() == 6);
    assert("medium.en"@.len() == 9);
    assert("medium-q5_0"@.len() == 11);
    assert("medium.en-q5_0"@.len() == 14);
    assert("medium-q8_0"@.len() == 11);
    assert("medium.en-q8_0"@.len() == 14);
    assert("large-v3"@.len() == 8);
    assert("large-v3-q5_0"@.len() == 13);
    assert("large-v3-turbo"@.len() == 14);
    assert("large-v3-turbo-q5_0"@.len() == 19);
    assert("large-v3-turbo-q8_0"@.len() == 19);
    assert("tiny"@[0] != "base"@[0]);
    assert("tiny.en"@[0] != "base.en"@[0]);
    assert("tiny-q5_1"@[6] != "tiny-q8_0"@[6]);
    assert("tiny-q5_1"@[0] != "base-q5_1"@[0]);
    assert("tiny-q5_1"@[0] != "base-q8_0"@[0]);
    assert("tiny-q5_1"@[0] != "medium.en"@[0]);
    assert("tiny.en-q5_1"@[9] != "tiny.en-q8_0"@[9]);
    assert("tiny.en-q5_1"@[0] != "base.en-q5_1"@[0]);
    assert("tiny.en-q5_1"@[0] != "base.en-q8_0"@[0]);
    assert("tiny-q8_0"@[0] != "base-q5_1"@[0]);
    assert("tiny-q8_0"@[0] != "base-q8_0"@[0]);
    assert("tiny-q8_0"@[0] != "medium.en"@[0]);
    assert("tiny.en-q8_0"@[0] != "base.en-q5_1"@[0]);
    assert("tiny.en-q8_0"@[0] != "base.en-q8_0"@[0]);
    assert("base-q5_1"@[6] != "base-q8_0"@[6]);
    assert("base-q5_1"@[0] != "medium.en"@[0]);
    assert("base.en-q5_1"@[9] != "base.en-q8_0"@[9]);
    assert("base-q8_0"@[0] != "medium.en"@[0]);
    assert("small.en"@[0] != "large-v3"@[0]);
    assert("small-q5_1"@[7] != "small-q8_0"@[7]);
    assert("small.en-q5_1"@[10] != "small.en-q8_0"@[10]);
    assert("small.en-q5_1"@[0] != "large-v3-q5_0"@[0]);
    assert("small.en-q8_0"@[0] != "large-v3-q5_0"@[0]);
    assert("medium-q5_0"@[8] != "medium-q8_0"@[8]);
    assert("medium.en-q5_0"@[11] != "medium.en-q8_0"@[11]);
    assert("medium.en-q5_0"@[0] != "large-v3-turbo"@[0]);
    assert("medium.en-q8_0"@[0] != "large-v3-turbo"@[0]);
    assert("large-v3-turbo-q5_0"@[16] != "large-v3-turbo-q8_0"@[16]);
    assert(names[0] == "tiny"@);
    assert(names[1] == "tiny.en"@);
    assert(names[2] == "tiny-q5_1"@);
    assert(names[3] == "tiny.en-q5_1"@);
    assert(names[4] == "tiny-q8_0"@);
    assert(names[5] == "tiny.en-q8_0"@);
    assert(names[6] == "base"@);
    assert(names[7] == "base.en"@);
    assert(names[8] == "base-q5_1"@);
    assert(names[9] == "base.en-q5_1"@);
    assert(names[10] == "base-q8_0"@);
    assert(names[11] == "base.en-q8_0"@);
    assert(names[12] == "small"@);
    assert(names[13] == "small.en"@);
    assert(names[14] == "small-q5_1"@);
    assert(names[15] == "small.en-q5_1"@);
    assert(names[16] == "small-q8_0"@);
    assert(names[17] == "small.en-q8_0"@);
    assert(names[18] == "medium"@);
    assert(names[19] == "medium.en"@);
    assert(names[20] == "medium-q5_0"@);
    assert(names[21] == "medium.en-q5_0"@);
    assert(names[22] == "medium-q8_0"@);
    assert(names[23] == "medium.en-q8_0"@);
    assert(names[24] == "large-v3"@);
    assert(names[25] == "large-v3-q5_0"@);
    assert(names[26] == "large-v3-turbo"@);
    assert(names[27] == "large-v3-turbo-q5_0"@);
    assert(names[28] == "large-v3-turbo-q8_0"@);
    assert forall|i: int, j: int| 0 <= i < j < catalog().len() implies #[trigger] catalog()[i].name@
        != #[trigger] catalog()[j].name@ by {
        assert(names[i] != names[j]);
    }
}

/// No two catalog entries are stored under the same file name, so no two
/// models share an artifact.
pub proof fn catalog_filenames_distinct()
    ensures
        forall|i: int, j: int|
            0 <= i < j < catalog().len() ==> #[trigger] catalog()[i].filename@
                != #[trigger] catalog()[j].filename@,
{
    let files = catalog().map_values(|m: ModelInfo| m.filename@);
    reveal_strlit("ggml-tiny.bin");
    reveal_strlit("ggml-tiny.en.bin");
    reveal_strlit("ggml-tiny-q5_1.bin");
    reveal_strlit("ggml-tiny.en-q5_1.bin");
    reveal_strlit("ggml-tiny-q8_0.bin");
    reveal_strlit("ggml-tiny.en-q8_0.bin");
    reveal_strlit("ggml-base.bin");
    reveal_strlit("ggml-base.en.bin");
    reveal_strlit("ggml-base-q5_1.bin");
    reveal_strlit("ggml-base.en-q5_1.bin");
    reveal_strlit("ggml-base-q8_0.bin");
    reveal_strlit("ggml-base.en-q8_0.bin");
    reveal_strlit("ggml-small.bin");
    reveal_strlit("ggml-small.en.bin");
    reveal_strlit("ggml-small-q5_1.bin");
    reveal_strlit("ggml-small.en-q5_1.bin");
    reveal_strlit("ggml-small-q8_0.bin");
    reveal_strlit("ggml-small.en-q8_0.bin");
    reveal_strlit("ggml-medium.bin");
    reveal_strlit("ggml-medium.en.bin");
    reveal_strlit("ggml-medium-q5_0.bin");
    reveal_strlit("ggml-medium.en-q5_0.bin");
    reveal_strlit("ggml-medium-q8_0.bin");
    reveal_strlit("ggml-medium.en-q8_0.bin");
    reveal_strlit("ggml-large-v3.bin");
    reveal_strlit("ggml-large-v3-q5_0.bin");
    reveal_strlit("ggml-large-v3-turbo.bin");
    reveal_strlit("ggml-large-v3-turbo-q5_0.bin");
    reveal_strlit("ggml-large-v3-turbo-q8_0.bin");
    assert("ggml-tiny.bin"@.len() == 13);
    assert("ggml-tiny.en.bin"@.len() == 16);
    assert("ggml-tiny-q5_1.bin"@.len() == 18);
    assert("ggml-tiny.en-q5_1.bin"@.len() == 21);
    assert("ggml-tiny-q8_0.bin"@.len() == 18);
    assert("ggml-tiny.en-q8_0.bin"@.len() == 21);
    assert("ggml-base.bin"@.len() == 13);
    assert("ggml-base.en.bin"@.len() == 16);
    assert("ggml-base-q5_1.bin"@.len() == 18);
    assert("ggml-base.en-q5_1.bin"@.len() == 21);
    assert("ggml-base-q8_0.bin"@.len() == 18);
    assert("ggml-base.en-q8_0.bin"@.len() == 21);
    assert("ggml-small.bin"@.len() == 14);
    assert("ggml-small.en.bin"@.len() == 17);
    assert("ggml-small-q5_1.bin"@.len() == 19);
    assert("ggml-small.en-q5_1.bin"@.len() == 22);
    assert("ggml-small-q8_0.bin"@.len() == 19);
    assert("ggml-small.en-q8_0.bin"@.len() == 22);
    assert("ggml-medium.bin"@.len() == 15);
    assert("ggml-medium.en.bin"@.len() == 18);
    assert("ggml-medium-q5_0.bin"@.len() == 20);
    assert("ggml-medium.en-q5_0.bin"@.len() == 23);
    assert("ggml-medium-q8_0.bin"@.len() == 20);
    assert("ggml-medium.en-q8_0.bin"@.len() == 23);
    assert("ggml-large-v3.bin"@.len() == 17);
    assert("ggml-large-v3-q5_0.bin"@.len() == 22);
    assert("ggml-large-v3-turbo.bin"@.len() == 23);
    assert("ggml-large-v3-turbo-q5_0.bin"@.len() == 28);
    assert("ggml-large-v3-turbo-q8_0.bin"@.len() == 28);
    assert("ggml-tiny.bin"@[5] != "ggml-base.bin"@[5]);
    assert("ggml-tiny.en.bin"@[5] != "ggml-base.en.bin"@[5]);
    assert("ggml-tiny-q5_1.bin"@[11] != "ggml-tiny-q8_0.bin"@[11]);
    assert("ggml-tiny-q5_1.bin"@[5] != "ggml-base-q5_1.bin"@[5]);
    assert("ggml-tiny-q5_1.bin"@[5] != "ggml-base-q8_0.bin"@[5]);
    assert("ggml-tiny-q5_1.bin"@[5] != "ggml-medium.en.bin"@[5]);
    assert("ggml-tiny.en-q5_1.bin"@[14] != "ggml-tiny.en-q8_0.bin"@[14]);
    assert("ggml-tiny.en-q5_1.bin"@[5] != "ggml-base.en-q5_1.bin"@[5]);
    assert("ggml-tiny.en-q5_1.bin"@[5] != "ggml-base.en-q8_0.bin"@[5]);
    assert("ggml-tiny-q8_0.bin"@[5] != "ggml-base-q5_1.bin"@[5]);
    assert("ggml-tiny-q8_0.bin"@[5] != "ggml-base-q8_0.bin"@[5]);
    assert("ggml-tiny-q8_0.bin"@[5] != "ggml-medium.en.bin"@[5]);
    assert("ggml-tiny.en-q8_0.bin"@[5] != "ggml-base.en-q5_1.bin"@[5]);
    assert("ggml-tiny.en-q8_0.bin"@[5] != "ggml-base.en-q8_0.bin"@[5]);
    assert("ggml-base-q5_1.bin"@[11] != "ggml-base-q8_0.bin"@[11]);
    assert("ggml-base-q5_1.bin"@[5] != "ggml-medium.en.bin"@[5]);
    assert("ggml-base.en-q5_1.bin"@[14] != "ggml-base.en-q8_0.bin"@[14]);
    assert("ggml-base-q8_0.bin"@[5] != "ggml-medium.en.bin"@[5]);
    assert("ggml-small.en.bin"@[5] != "ggml-large-v3.bin"@[5]);
    assert("ggml-small-q5_1.bin"@[12] != "ggml-small-q8_0.bin"@[12]);
    assert("ggml-small.en-q5_1.bin"@[15] != "ggml-small.en-q8_0.bin"@[15]);
    assert("ggml-small.en-q5_1.bin"@[5] != "ggml-large-v3-q5_0.bin"@[5]);
    assert("ggml-small.en-q8_0.bin"@[5] != "ggml-large-v3-q5_0.bin"@[5]);
    assert("ggml-medium-q5_0.bin"@[13] != "ggml-medium-q8_0.bin"@[13]);
    assert("ggml-medium.en-q5_0.bin"@[16] != "ggml-medium.en-q8_0.bin"@[16]);
    assert("ggml-medium.en-q5_0.bin"@[5] != "ggml-large-v3-turbo.bin"@[5]);
    assert("ggml-medium.en-q8_0.bin"@[5] != "ggml-large-v3-turbo.bin"@[5]);
    assert("ggml-large-v3-turbo-q5_0.bin"@[21] != "ggml-large-v3-turbo-q8_0.bin"@[21]);
    assert(files[0] == "ggml-tiny.bin"@);
    assert(files[1] == "ggml-tiny.en.bin"@);
    assert(files[2] == "ggml-tiny-q5_1.bin"@);
    assert(files[3] == "ggml-tiny.en-q5_1.bin"@);
    assert(files[4] == "ggml-tiny-q8_0.bin"@);
    assert(files[5] == "ggml-tiny.en-q8_0.bin"@);
    assert(files[6] == "ggml-base.bin"@);
    assert(files[7] == "ggml-base.en.bin"@);
    assert(files[8] == "ggml-base-q5_1.bin"@);
    assert(files[9] == "ggml-base.en-q5_1.bin"@);
    assert(files[10] == "ggml-base-q8_0.bin"@);
    assert(files[11] == "ggml-base.en-q8_0.bin"@);
    assert(files[12] == "ggml-small.bin"@);
    assert(files[13] == "ggml-small.en.bin"@);
    assert(files[14] == "ggml-small-q5_1.bin"@);
    assert(files[15] == "ggml-small.en-q5_1.bin"@);
    assert(files[16] == "ggml-small-q8_0.bin"@);
    assert(files[17] == "ggml-small.en-q8_0.bin"@);
    assert(files[18] == "ggml-medium.bin"@);
    assert(files[19] == "ggml-medium.en.bin"@);
    assert(files[20] == "ggml-medium-q5_0.bin"@);
    assert(files[21] == "ggml-medium.en-q5_0.bin"@);
    assert(files[22] == "ggml-medium-q8_0.bin"@);
    assert(files[23] == "ggml-medium.en-q8_0.bin"@);
    assert(files[24] == "ggml-large-v3.bin"@);
    assert(files[25] == "ggml-large-v3-q5_0.bin"@);
    assert(files[26] == "ggml-large-v3-turbo.bin"@);
    assert(files[27] == "ggml-large-v3-turbo-q5_0.bin"@);
    assert(files[28] == "ggml-large-v3-turbo-q8_0.bin"@);
    assert forall|i: int, j: int| 0 <= i < j < catalog().len() implies #[trigger] catalog()[i].filename@
        != #[trigger] catalog()[j].filename@ by {
        assert(files[i] != files[j]);
    }
}

/// The default model is in the catalog.
pub proof fn default_model_known()
    ensures
        known_model(DEFAULT_MODEL@),
{
    assert(catalog()[3].name@ == DEFAULT_MODEL@);
}

/// Resolves a model name to its catalog entry; `None` for a name the
/// catalog does not hold.
pub fn find_model_info(model_name: &str) -> (r: Option<ModelInfo>)
    ensures
        r.is_some() == known_model(model_name@),
        r matches Some(m) ==> m == model_named(model_name@) && m.name@ == model_name@,
{
    let models = get_available_models();
    let mut i: usize = 0;
    while i < models.len()
        invariant
            models@ == catalog(),
            0 <= i <= models.len(),
            forall|j: int| 0 <= j < i ==> catalog()[j].name@ != model_name@,
        decreases models.len() - i,
    {
        if same_text(models[i].name, model_name) {
            proof {
                catalog_names_distinct();
            }
            return Some(models[i]);
        }
        i += 1;
    }
    None
}

/// The stored selection, kept only when it names a catalog entry.
pub fn load_selected_model(stored: Option<String>) -> (r: Option<String>)
    ensures
        r == (match stored {
            Some(name) => if known_model(name@) {
                Some(name)
            } else {
                None
            },
            None => None,
        }),
{
    match stored {
        Some(name) => {
            if find_model_info(name.as_str()).is_some() {
                Some(name)
            } else {
                None
            }
        },
        None => None,
    }
}

} // verus!
