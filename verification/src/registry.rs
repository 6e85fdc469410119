//! The local model registry: what models are installed, under which unique
//! names, and where their files live.
//!
//! The registry is a name-keyed store; persistence (the JSON file it is
//! loaded from and saved to) is the caller's concern, which hands the parsed
//! entries in and writes them back out.

use vstd::prelude::*;
use vstd::string::StringExecFns;

verus! {

/// Where a model came from.
#[derive(Clone, Debug)]
pub enum ModelSource {
    HuggingFace { repo_id: String },
    GitHub { repo: String, release: Option<String> },
    Local,
}

/// What kind of model an entry is.
#[derive(Clone, Copy, Debug, PartialEq, Eq, Structural)]
pub enum ModelType {
    LLM,
    Embedding,
    ImageGeneration,
    ImageClassification,
    AudioTranscription,
    AudioGeneration,
    Unknown,
}

/// The kind a model-hub pipeline tag names.
pub open spec fn model_type_of_tag(tag: Seq<char>) -> ModelType {
    if tag == "text-generation"@ || tag == "text2text-generation"@ {
        ModelType::LLM
    } else if tag == "feature-extraction"@ || tag == "sentence-similarity"@ {
        ModelType::Embedding
    } else if tag == "text-to-image"@ || tag == "image-to-image"@ {
        ModelType::ImageGeneration
    } else if tag == "image-classification"@ || tag == "object-detection"@ {
        ModelType::ImageClassification
    } else if tag == "automatic-speech-recognition"@ {
        ModelType::AudioTranscription
    } else if tag == "text-to-audio"@ || tag == "text-to-speech"@ {
        ModelType::AudioGeneration
    } else {
        ModelType::Unknown
    }
}

impl ModelType {
    /// The short label shown for this kind.
    pub fn as_str(&self) -> (s: &'static str)
        ensures
            s@ == match *self {
                ModelType::LLM => "LLM"@,
                ModelType::Embedding => "Embedding"@,
                ModelType::ImageGeneration => "Image Gen"@,
                ModelType::ImageClassification => "Image Class"@,
                ModelType::AudioTranscription => "Audio STT"@,
                ModelType::AudioGeneration => "Audio Gen"@,
                ModelType::Unknown => "Unknown"@,
            },
    {
        match self {
            ModelType::LLM => "LLM",
            ModelType::Embedding => "Embedding",
            ModelType::ImageGeneration => "Image Gen",
            ModelType::ImageClassification => "Image Class",
            ModelType::AudioTranscription => "Audio STT",
            ModelType::AudioGeneration => "Audio Gen",
            ModelType::Unknown => "Unknown",
        }
    }

    /// The kind a model-hub pipeline tag names; anything unrecognized is
    /// `Unknown`.
    pub fn from_pipeline_tag(tag: &str) -> (t: ModelType)
        ensures
            t == model_type_of_tag(tag@),
    {
        let tag_string = String::from_str(tag);
        if tag_string == String::from_str("text-generation") || tag_string == String::from_str(
            "text2text-generation",
        ) {
            ModelType::LLM
        } else if tag_string == String::from_str("feature-extraction") || tag_string
            == String::from_str("sentence-similarity") {
            ModelType::Embedding
        } else if tag_string == String::from_str("text-to-image") || tag_string
            == String::from_str("image-to-image") {
            ModelType::ImageGeneration
        } else if tag_string == String::from_str("image-classification") || tag_string
            == String::from_str("object-detection") {
            ModelType::ImageClassification
        } else if tag_string == String::from_str("automatic-speech-recognition") {
            ModelType::AudioTranscription
        } else if tag_string == String::from_str("text-to-audio") || tag_string
            == String::from_str("text-to-speech") {
            ModelType::AudioGeneration
        } else {
            ModelType::Unknown
        }
    }
}

/// One installed model.
#[derive(Clone, Debug)]
pub struct ModelInfo {
    /// The unique registry name.
    pub name: String,
    pub source: ModelSource,
    pub model_type: ModelType,
    /// The model directory, as a path string.
    pub path: String,
    pub size_bytes: u64,
    /// The files the download brought.
    pub files: Vec<String>,
    /// When the model was downloaded, in seconds since the Unix epoch.
    pub downloaded_at: i64,
}

/// The first position holding `name`, or the length when none does.
pub open spec fn find_from(models: Seq<ModelInfo>, name: Seq<char>, i: int) -> int
    decreases models.len() - i,
{
    if i < 0 || i >= models.len() {
        models.len() as int
    } else if models[i].name@ == name {
        i
    } else {
        find_from(models, name, i + 1)
    }
}

pub open spec fn find_index(models: Seq<ModelInfo>, name: Seq<char>) -> int {
    find_from(models, name, 0)
}

/// The registry of installed models, keyed by unique name.
pub struct ModelRegistry {
    pub models: Vec<ModelInfo>,
}

impl ModelRegistry {
    /// Names are unique.
    pub open spec fn wf(&self) -> bool {
        forall|i: int, j: int|
            0 <= i < j < self.models@.len() ==> #[trigger] self.models@[i].name@ != #[trigger] self.models@[j].name@
    }

    /// An empty registry.
    pub fn new() -> (r: ModelRegistry)
        ensures
            r.models@.len() == 0,
            r.wf(),
    {
        ModelRegistry { models: Vec::new() }
    }

    /// The position of `name`, or the length when absent.
    fn find(&self, name: &String) -> (i: usize)
        ensures
            i as int == find_index(self.models@, name@),
            i <= self.models@.len(),
            i < self.models@.len() ==> self.models@[i as int].name@ == name@,
    {
        let mut i: usize = 0;
        while i < self.models.len()
            invariant
                0 <= i <= self.models@.len(),
                find_index(self.models@, name@) == find_from(self.models@, name@, i as int),
            decreases self.models@.len() - i,
        {
            if self.models[i].name == *name {
                return i;
            }
            i += 1;
        }
        i
    }

    /// Look a model up by name.
    pub fn get(&self, name: &String) -> (r: Option<&ModelInfo>)
        ensures
            ({
                let idx = find_index(self.models@, name@);
                &&& (r matches Some(m) ==> idx < self.models@.len() && *m == self.models@[idx]
                    && m.name@ == name@)
                &&& (r is None ==> idx == self.models@.len())
            }),
    {
        let i = self.find(name);
        if i < self.models.len() {
            Some(&self.models[i])
        } else {
            None
        }
    }

    /// Add a model under its name, replacing an entry of the same name.
    pub fn add(&mut self, model: ModelInfo)
        requires
            old(self).wf(),
        ensures
            final(self).wf(),
            ({
                let idx = find_index(old(self).models@, model.name@);
                if idx < old(self).models@.len() {
                    final(self).models@ == old(self).models@.update(idx, model)
                } else {
                    final(self).models@ == old(self).models@.push(model)
                }
            }),
    {
        let name = model.name.clone();
        proof {
            assert(name@ == model.name@);
        }
        let i = self.find(&name);
        if i < self.models.len() {
            self.models[i] = model;
            proof {
                lemma_find_properties(old(self).models@, name@);
            }
        } else {
            self.models.push(model);
            proof {
                lemma_find_properties(old(self).models@, name@);
            }
        }
    }

    /// Remove a model by name, handing the entry back when it was there.
    pub fn remove(&mut self, name: &String) -> (r: Option<ModelInfo>)
        requires
            old(self).wf(),
        ensures
            final(self).wf(),
            ({
                let idx = find_index(old(self).models@, name@);
                if idx < old(self).models@.len() {
                    &&& (r matches Some(m) && m == old(self).models@[idx])
                    &&& final(self).models@ == old(self).models@.remove(idx)
                } else {
                    &&& (r is None)
                    &&& final(self).models@ == old(self).models@
                }
            }),
    {
        let i = self.find(name);
        if i < self.models.len() {
            let m = self.models.remove(i);
            Some(m)
        } else {
            None
        }
    }

    /// Every installed model, in registry order.
    pub fn list(&self) -> (r: &Vec<ModelInfo>)
        ensures
            r@ == self.models@,
    {
        &self.models
    }
}

/// A model name with every path separator folded to a double dash: the form
/// hub downloads are stored under.
pub open spec fn folded_name(s: Seq<char>) -> Seq<char>
    decreases s.len(),
{
    if s.len() == 0 {
        Seq::empty()
    } else {
        folded_name(s.drop_last()) + (if s.last() == '/' {
            "--"@
        } else {
            seq![s.last()]
        })
    }
}

/// A segment without separators folds to itself.
proof fn lemma_folded_plain_segment(s: Seq<char>, a: int, b: int)
    requires
        0 <= a <= b <= s.len(),
        forall|k: int| a <= k < b ==> s[k] != '/',
    ensures
        folded_name(s.take(b)) == folded_name(s.take(a)) + s.subrange(a, b),
    decreases b - a,
{
    if a == b {
        assert(folded_name(s.take(a)) + s.subrange(a, b) =~= folded_name(s.take(a)));
    } else {
        lemma_folded_plain_segment(s, a, b - 1);
        assert(s.take(b).drop_last() =~= s.take(b - 1));
        assert(s.take(b).last() == s[b - 1]);
        assert(folded_name(s.take(a)) + s.subrange(a, b - 1) + seq![s[b - 1]] =~= folded_name(
            s.take(a),
        ) + s.subrange(a, b));
    }
}

/// Fold a model name for the on-disk directory form.
pub fn fold_model_name(model: &str) -> (r: String)
    ensures
        r@ == folded_name(model@),
{
    let n = model.unicode_len();
    let mut out = String::new();
    let mut start: usize = 0;
    let mut i: usize = 0;
    while i < n
        invariant
            0 <= start <= i <= n,
            n == model@.len(),
            out@ == folded_name(model@.take(start as int)),
            forall|k: int| start <= k < i ==> model@[k] != '/',
        decreases n - i,
    {
        if model.get_char(i) == '/' {
            let segment = model.substring_char(start, i);
            out.append(segment);
            proof {
                lemma_folded_plain_segment(model@, start as int, i as int);
            }
            out.append("--");
            proof {
                assert(model@.take(i + 1).drop_last() =~= model@.take(i as int));
                assert(model@.take(i + 1).last() == model@[i as int]);
            }
            start = i + 1;
        }
        i += 1;
    }
    let segment = model.substring_char(start, n);
    out.append(segment);
    proof {
        lemma_folded_plain_segment(model@, start as int, n as int);
        assert(model@.take(n as int) =~= model@);
    }
    out
}

/// The places a model may live under the storage directory, probed in order:
/// the name itself, the folded name, and the folded name under the hub cache
/// prefix.
pub fn model_path_candidates(model: &str, storage_path: &str) -> (r: Vec<String>)
    ensures
        r@.len() == 3,
        r@[0]@ == storage_path@ + "/"@ + model@,
        r@[1]@ == storage_path@ + "/"@ + folded_name(model@),
        r@[2]@ == storage_path@ + "/models--"@ + folded_name(model@),
{
    let folded = fold_model_name(model);
    let mut direct = String::from_str(storage_path);
    direct.append("/");
    direct.append(model);
    let mut by_folded = String::from_str(storage_path);
    by_folded.append("/");
    by_folded.append(folded.as_str());
    let mut cached = String::from_str(storage_path);
    cached.append("/models--");
    cached.append(folded.as_str());
    let mut r: Vec<String> = Vec::new();
    r.push(direct);
    r.push(by_folded);
    r.push(cached);
    r
}

/// No position before the found one holds the name; the found position does.
proof fn lemma_find_from_properties(models: Seq<ModelInfo>, name: Seq<char>, i: int)
    requires
        0 <= i <= models.len(),
    ensures
        ({
            let idx = find_from(models, name, i);
            &&& i <= idx <= models.len()
            &&& (idx < models.len() ==> models[idx].name@ == name)
            &&& forall|j: int| i <= j < idx ==> #[trigger] models[j].name@ != name
        }),
    decreases models.len() - i,
{
    if i < models.len() && models[i].name@ != name {
        lemma_find_from_properties(models, name, i + 1);
    }
}

proof fn lemma_find_properties(models: Seq<ModelInfo>, name: Seq<char>)
    ensures
        ({
            let idx = find_index(models, name);
            &&& 0 <= idx <= models.len()
            &&& (idx < models.len() ==> models[idx].name@ == name)
            &&& forall|j: int| 0 <= j < idx ==> #[trigger] models[j].name@ != name
        }),
{
    lemma_find_from_properties(models, name, 0);
}

} // verus!
