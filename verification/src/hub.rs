//! Model-hub metadata, and the choice of which repository files a download
//! takes.
//!
//! The network lives with the caller; the selection over the returned
//! metadata is here. Quantized single-file models are preferred — the
//! balanced quantization first — and otherwise the tensor files and the
//! tokenizer and model configurations are taken.

use vstd::prelude::*;
use vstd::string::StringExecFns;

use crate::strutil::contains_seq;
use crate::strutil::str_contains;
use crate::strutil::str_ends_with;
use crate::strutil::str_eq;

verus! {

/// What the hub says of one model.
#[derive(Clone, Debug)]
pub struct HfModelInfo {
    pub id: String,
    pub pipeline_tag: Option<String>,
    pub downloads: u64,
    pub likes: i64,
    pub siblings: Vec<HfSibling>,
}

/// One file of a hub repository.
#[derive(Clone, Debug)]
pub struct HfSibling {
    pub rfilename: String,
    pub size: Option<u64>,
}

/// One search hit.
#[derive(Clone, Debug)]
pub struct HfSearchResult {
    pub id: String,
    pub downloads: u64,
    pub likes: i64,
}

/// The character sequences of a string sequence.
pub open spec fn views_of(ss: Seq<String>) -> Seq<Seq<char>> {
    ss.map_values(|s: String| s@)
}

/// A quantized single-file model.
pub open spec fn is_gguf(name: Seq<char>) -> bool {
    ".gguf"@.is_suffix_of(name)
}

/// A tensor file or a configuration the loader needs.
pub open spec fn is_model_file(name: Seq<char>) -> bool {
    ||| ".safetensors"@.is_suffix_of(name)
    ||| ".bin"@.is_suffix_of(name)
    ||| ".pt"@.is_suffix_of(name)
    ||| name == "config.json"@
    ||| name == "tokenizer.json"@
    ||| name == "tokenizer_config.json"@
}

/// The quantized single-file models among a repository's files, in order.
pub open spec fn gguf_names(sibs: Seq<HfSibling>) -> Seq<Seq<char>>
    decreases sibs.len(),
{
    if sibs.len() == 0 {
        Seq::empty()
    } else {
        let rest = gguf_names(sibs.drop_last());
        if is_gguf(sibs.last().rfilename@) {
            rest.push(sibs.last().rfilename@)
        } else {
            rest
        }
    }
}

/// The loader-relevant files among a repository's files, in order.
pub open spec fn model_file_names(sibs: Seq<HfSibling>) -> Seq<Seq<char>>
    decreases sibs.len(),
{
    if sibs.len() == 0 {
        Seq::empty()
    } else {
        let rest = model_file_names(sibs.drop_last());
        if is_model_file(sibs.last().rfilename@) {
            rest.push(sibs.last().rfilename@)
        } else {
            rest
        }
    }
}

/// The position of the first name carrying the balanced-quantization marker,
/// or the length when none does.
pub open spec fn first_balanced(names: Seq<Seq<char>>, i: int) -> int
    decreases names.len() - i,
{
    if i < 0 || i >= names.len() {
        names.len() as int
    } else if contains_seq(names[i], "Q4_K_M"@) {
        i
    } else {
        first_balanced(names, i + 1)
    }
}

/// Which repository files a download takes: the requested file alone when one
/// was named; else one quantized single-file model if the repository has any
/// — the first balanced quantization, or failing that the first one; else
/// every tensor file and loader configuration.
pub open spec fn select_files_spec(requested: Option<Seq<char>>, sibs: Seq<HfSibling>) -> Seq<
    Seq<char>,
> {
    if requested is Some {
        seq![requested->0]
    } else {
        let ggufs = gguf_names(sibs);
        if ggufs.len() > 0 {
            let q = first_balanced(ggufs, 0);
            if q < ggufs.len() {
                seq![ggufs[q]]
            } else {
                seq![ggufs[0]]
            }
        } else {
            model_file_names(sibs)
        }
    }
}

/// Choose the repository files a download takes.
pub fn select_files(model_info: &HfModelInfo, requested_file: Option<&str>) -> (r: Vec<String>)
    ensures
        views_of(r@) == select_files_spec(
            match requested_file {
                Some(f) => Some(f@),
                None => None,
            },
            model_info.siblings@,
        ),
{
    if let Some(f) = requested_file {
        let mut r: Vec<String> = Vec::new();
        r.push(String::from_str(f));
        proof {
            assert(views_of(r@) =~= seq![f@]);
        }
        return r;
    }
    let sibs = &model_info.siblings;
    let mut ggufs: Vec<String> = Vec::new();
    let mut i: usize = 0;
    while i < sibs.len()
        invariant
            i <= sibs@.len(),
            views_of(ggufs@) == gguf_names(sibs@.take(i as int)),
        decreases sibs@.len() - i,
    {
        let ghost pre = ggufs@;
        if str_ends_with(sibs[i].rfilename.as_str(), ".gguf") {
            ggufs.push(sibs[i].rfilename.clone());
            proof {
                assert(views_of(pre.push(ggufs@[pre.len() as int])) =~= views_of(pre).push(
                    sibs@[i as int].rfilename@,
                ));
            }
        }
        proof {
            assert(sibs@.take(i + 1).drop_last() =~= sibs@.take(i as int));
            assert(sibs@.take(i + 1).last() == sibs@[i as int]);
        }
        i += 1;
    }
    proof {
        assert(sibs@.take(sibs@.len() as int) =~= sibs@);
    }
    if ggufs.len() > 0 {
        let ghost gv = views_of(ggufs@);
        let mut j: usize = 0;
        while j < ggufs.len()
            invariant
                requested_file is None,
                j <= ggufs@.len(),
                gv == views_of(ggufs@),
                gv == gguf_names(model_info.siblings@),
                gv.len() == ggufs@.len(),
                first_balanced(gv, 0) == first_balanced(gv, j as int),
            decreases ggufs@.len() - j,
        {
            if str_contains(ggufs[j].as_str(), "Q4_K_M") {
                let mut r: Vec<String> = Vec::new();
                r.push(ggufs[j].clone());
                proof {
                    assert(gv[j as int] == ggufs@[j as int]@);
                    assert(first_balanced(gv, j as int) == j as int);
                    assert(views_of(r@) =~= seq![gv[j as int]]);
                }
                return r;
            }
            proof {
                assert(gv[j as int] == ggufs@[j as int]@);
            }
            j += 1;
        }
        let mut r: Vec<String> = Vec::new();
        r.push(ggufs[0].clone());
        proof {
            assert(views_of(r@) =~= seq![gv[0]]);
        }
        r
    } else {
        let mut files: Vec<String> = Vec::new();
        let mut i: usize = 0;
        while i < sibs.len()
            invariant
                i <= sibs@.len(),
                views_of(files@) == model_file_names(sibs@.take(i as int)),
            decreases sibs@.len() - i,
        {
            let ghost pre = files@;
            let name = &sibs[i].rfilename;
            if str_ends_with(name.as_str(), ".safetensors") || str_ends_with(name.as_str(), ".bin")
                || str_ends_with(name.as_str(), ".pt") || str_eq(name.as_str(), "config.json")
                || str_eq(name.as_str(), "tokenizer.json") || str_eq(
                name.as_str(),
                "tokenizer_config.json",
            ) {
                files.push(name.clone());
                proof {
                    assert(views_of(pre.push(files@[pre.len() as int])) =~= views_of(pre).push(
                        sibs@[i as int].rfilename@,
                    ));
                }
            }
            proof {
                assert(sibs@.take(i + 1).drop_last() =~= sibs@.take(i as int));
                assert(sibs@.take(i + 1).last() == sibs@[i as int]);
            }
            i += 1;
        }
        proof {
            assert(sibs@.take(sibs@.len() as int) =~= sibs@);
        }
        files
    }
}

/// One release of a source-forge repository.
#[derive(Clone, Debug)]
pub struct GhRelease {
    pub tag_name: String,
    pub assets: Vec<GhAsset>,
}

/// One downloadable asset of a release.
#[derive(Clone, Debug)]
pub struct GhAsset {
    pub name: String,
    pub size: u64,
    pub browser_download_url: String,
}

/// A weight file by extension.
pub open spec fn is_weight_asset(name: Seq<char>) -> bool {
    ||| ".gguf"@.is_suffix_of(name)
    ||| ".safetensors"@.is_suffix_of(name)
    ||| ".bin"@.is_suffix_of(name)
    ||| ".pt"@.is_suffix_of(name)
    ||| ".onnx"@.is_suffix_of(name)
}

/// Which release assets a download takes: those whose name carries the
/// requested fragment when one was named, else every weight file.
pub open spec fn select_assets_spec(requested: Option<Seq<char>>, assets: Seq<GhAsset>) -> Seq<
    GhAsset,
>
    decreases assets.len(),
{
    if assets.len() == 0 {
        Seq::empty()
    } else {
        let rest = select_assets_spec(requested, assets.drop_last());
        let keep = match requested {
            Some(fragment) => contains_seq(assets.last().name@, fragment),
            None => is_weight_asset(assets.last().name@),
        };
        if keep {
            rest.push(assets.last())
        } else {
            rest
        }
    }
}

/// Choose the release assets a download takes.
pub fn select_assets(release: &GhRelease, requested_file: Option<&str>) -> (r: Vec<GhAsset>)
    ensures
        r@ == select_assets_spec(
            match requested_file {
                Some(f) => Some(f@),
                None => None,
            },
            release.assets@,
        ),
{
    let ghost wanted: Option<Seq<char>> = match requested_file {
        Some(f) => Some(f@),
        None => None,
    };
    let assets = &release.assets;
    let mut out: Vec<GhAsset> = Vec::new();
    let mut i: usize = 0;
    while i < assets.len()
        invariant
            i <= assets@.len(),
            wanted == (match requested_file {
                Some(f) => Some(f@),
                None => None,
            }),
            out@ == select_assets_spec(wanted, assets@.take(i as int)),
        decreases assets@.len() - i,
    {
        let name = &assets[i].name;
        let keep = match requested_file {
            Some(fragment) => str_contains(name.as_str(), fragment),
            None => {
                str_ends_with(name.as_str(), ".gguf") || str_ends_with(name.as_str(), ".safetensors")
                    || str_ends_with(name.as_str(), ".bin") || str_ends_with(name.as_str(), ".pt")
                    || str_ends_with(name.as_str(), ".onnx")
            },
        };
        if keep {
            out.push(
                GhAsset {
                    name: assets[i].name.clone(),
                    size: assets[i].size,
                    browser_download_url: assets[i].browser_download_url.clone(),
                },
            );
        }
        proof {
            assert(assets@.take(i + 1).drop_last() =~= assets@.take(i as int));
            assert(assets@.take(i + 1).last() == assets@[i as int]);
        }
        i += 1;
    }
    proof {
        assert(assets@.take(assets@.len() as int) =~= assets@);
    }
    out
}

/// The repository a model id names: the forge prefix is dropped.
pub fn parse_repo(model_id: &str) -> (r: String)
    ensures
        "github:"@.is_prefix_of(model_id@) ==> r@ == model_id@.skip(7),
        !"github:"@.is_prefix_of(model_id@) ==> r@ == model_id@,
{
    proof {
        reveal_strlit("github:");
    }
    let len = model_id.unicode_len();
    if len >= 7 {
        let head = model_id.substring_char(0, 7);
        if crate::strutil::str_eq(head, "github:") {
            let tail = model_id.substring_char(7, len);
            return String::from_str(tail);
        }
    }
    proof {
        assert(!"github:"@.is_prefix_of(model_id@));
    }
    String::from_str(model_id)
}

} // verus!
