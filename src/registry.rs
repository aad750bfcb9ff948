//! Discovery of language-pair models, and the set of pairs that loaded.
//!
//! A models root holds one directory per language pair, named by the two
//! ISO 639-1 codes run together (`enzh`). Its files are told apart by name.
use vstd::prelude::*;
use crate::error::AppError;
use crate::lang::{LanguagePair, iso_639_3_code, iso_639_3_of};
use crate::text::{ends_with, has_prefix, has_suffix, same_text, starts_with};

verus! {

/// One file of a model directory: its file name and its full path.
#[derive(Clone, Debug)]
pub struct ModelFile {
    pub name: String,
    pub path: String,
}

/// The four files an engine configuration needs; an empty path is one
/// not found.
#[derive(Clone, Debug)]
pub struct ModelFiles {
    pub src_vocab_path: String,
    pub trg_vocab_path: String,
    pub model_path: String,
    pub shortlist_path: String,
}

/// A model directory: its name, which is the pair key, and its files.
#[derive(Clone, Debug)]
pub struct ModelDir {
    pub pair_key: String,
    pub files: Vec<ModelFile>,
}

/// A model directory ready to be handed to the engine.
#[derive(Clone, Debug)]
pub struct ModelBundle {
    pub pair_key: String,
    pub config: String,
    pub pair: LanguagePair,
}

/// The paths of a model directory as sequences: source vocabulary, target
/// vocabulary, weights, shortlist.
pub type PathsView = (Seq<char>, Seq<char>, Seq<char>, Seq<char>);

impl ModelFiles {
    pub open spec fn paths(&self) -> PathsView {
        (self.src_vocab_path@, self.trg_vocab_path@, self.model_path@, self.shortlist_path@)
    }
}

/// What a file is for, by its name.
#[derive(PartialEq, Eq, Structural, Clone, Copy, Debug)]
pub enum FileRole {
    SourceVocab,
    TargetVocab,
    SharedVocab,
    Weights,
    Shortlist,
    Other,
}

/// The role of a file: a `.spm` file is a vocabulary (of the source where
/// its name starts with `srcvocab`, of the target with `trgvocab`, else of
/// both); `.intgemm.alphas.bin` and `.intgemm8.bin` hold the weights;
/// `.s2t.bin` is the shortlist.
pub open spec fn role_of(name: Seq<char>) -> FileRole {
    if has_suffix(name, ".spm"@) {
        if has_prefix(name, "srcvocab"@) {
            FileRole::SourceVocab
        } else if has_prefix(name, "trgvocab"@) {
            FileRole::TargetVocab
        } else {
            FileRole::SharedVocab
        }
    } else if has_suffix(name, ".intgemm.alphas.bin"@) || has_suffix(name, ".intgemm8.bin"@) {
        FileRole::Weights
    } else if has_suffix(name, ".s2t.bin"@) {
        FileRole::Shortlist
    } else {
        FileRole::Other
    }
}

/// The paths after the file with role `role` and path `path` is taken in.
pub open spec fn take_in(acc: PathsView, role: FileRole, path: Seq<char>) -> PathsView {
    match role {
        FileRole::SourceVocab => (path, acc.1, acc.2, acc.3),
        FileRole::TargetVocab => (acc.0, path, acc.2, acc.3),
        FileRole::SharedVocab => (path, path, acc.2, acc.3),
        FileRole::Weights => (acc.0, acc.1, path, acc.3),
        FileRole::Shortlist => (acc.0, acc.1, acc.2, path),
        FileRole::Other => acc,
    }
}

/// The paths found among `files`, taken in order: where two files have
/// one role, the later one counts.
pub open spec fn paths_of(files: Seq<ModelFile>) -> PathsView
    decreases files.len(),
{
    if files.len() == 0 {
        (Seq::empty(), Seq::empty(), Seq::empty(), Seq::empty())
    } else {
        let f = files.last();
        take_in(paths_of(files.drop_last()), role_of(f.name@), f.path@)
    }
}

/// The role of the file named `name`.
pub fn classify_file(name: &str) -> (r: FileRole)
    ensures
        r == role_of(name@),
{
    if ends_with(name, ".spm") {
        if starts_with(name, "srcvocab") {
            FileRole::SourceVocab
        } else if starts_with(name, "trgvocab") {
            FileRole::TargetVocab
        } else {
            FileRole::SharedVocab
        }
    } else if ends_with(name, ".intgemm.alphas.bin") || ends_with(name, ".intgemm8.bin") {
        FileRole::Weights
    } else if ends_with(name, ".s2t.bin") {
        FileRole::Shortlist
    } else {
        FileRole::Other
    }
}

/// Sorts the files of a model directory into the four paths an engine
/// configuration needs.
pub fn collect_model_files(files: &Vec<ModelFile>) -> (r: ModelFiles)
    ensures
        r.paths() == paths_of(files@),
{
    let mut r = ModelFiles {
        src_vocab_path: String::new(),
        trg_vocab_path: String::new(),
        model_path: String::new(),
        shortlist_path: String::new(),
    };
    let mut i: usize = 0;
    while i < files.len()
        invariant
            i <= files@.len(),
            r.paths() == paths_of(files@.take(i as int)),
        decreases files@.len() - i,
    {
        proof {
            assert(files@.take(i as int + 1).drop_last() =~= files@.take(i as int));
        }
        let f = &files[i];
        let path = f.path.as_str();
        match classify_file(f.name.as_str()) {
            FileRole::SourceVocab => {
                r.src_vocab_path = String::from_str(path);
            },
            FileRole::TargetVocab => {
                r.trg_vocab_path = String::from_str(path);
            },
            FileRole::SharedVocab => {
                r.src_vocab_path = String::from_str(path);
                r.trg_vocab_path = String::from_str(path);
            },
            FileRole::Weights => {
                r.model_path = String::from_str(path);
            },
            FileRole::Shortlist => {
                r.shortlist_path = String::from_str(path);
            },
            FileRole::Other => {},
        }
        i = i + 1;
    }
    assert(files@.take(i as int) =~= files@);
    r
}

/// The fixed decoding settings of every model: greedy search, 8-bit
/// quantized matrix products, bounded batches and workspace.
pub open spec fn config_settings() -> Seq<char> {
    "beam-size: 1\nnormalize: 1.0\nword-penalty: 0\nmax-length-break: 128\nmini-batch-words: 1024\nworkspace: 128\nmax-length-factor: 2.0\nskip-cost: True\nquiet: True\nquiet_translation: True\ngemm-precision: int8shiftAll\n\nmodels: ["@
}

/// The engine configuration for a model of the given files.
pub open spec fn config_text(
    model: Seq<char>,
    src_vocab: Seq<char>,
    trg_vocab: Seq<char>,
    shortlist: Seq<char>,
) -> Seq<char> {
    config_settings() + model + "]\nvocabs: ["@ + src_vocab + ", "@ + trg_vocab
        + "]\nshortlist: ["@ + shortlist + ", false]"@
}

/// Builds the engine configuration that names the model's four files.
pub fn build_config(
    model_path: &str,
    src_vocab_path: &str,
    trg_vocab_path: &str,
    shortlist_path: &str,
) -> (r: String)
    ensures
        r@ == config_text(model_path@, src_vocab_path@, trg_vocab_path@, shortlist_path@),
{
    let mut c = String::from_str(
        "beam-size: 1\nnormalize: 1.0\nword-penalty: 0\nmax-length-break: 128\nmini-batch-words: 1024\nworkspace: 128\nmax-length-factor: 2.0\nskip-cost: True\nquiet: True\nquiet_translation: True\ngemm-precision: int8shiftAll\n\nmodels: [",
    );
    c.append(model_path);
    c.append("]\nvocabs: [");
    c.append(src_vocab_path);
    c.append(", ");
    c.append(trg_vocab_path);
    c.append("]\nshortlist: [");
    c.append(shortlist_path);
    c.append(", false]");
    c
}

/// A pair key names a pair: four characters, each half a known ISO 639-1
/// code.
pub open spec fn key_valid(key: Seq<char>) -> bool {
    &&& key.len() == 4
    &&& iso_639_3_of(key.subrange(0, 2)) is Some
    &&& iso_639_3_of(key.subrange(2, 4)) is Some
}

/// Parses a pair key (`enzh`) into its two languages.
pub fn parse_pair_key(key: &str) -> (r: Result<LanguagePair, AppError>)
    ensures
        key_valid(key@) ==> r is Ok && r->Ok_0.source@ == key@.subrange(0, 2)
            && r->Ok_0.target@ == key@.subrange(2, 4),
        !key_valid(key@) ==> (r matches Err(AppError::InvalidPairKey { pair }) && pair@ == key@),
{
    if key.unicode_len() != 4 {
        return Err(AppError::InvalidPairKey { pair: String::from_str(key) });
    }
    let from = key.substring_char(0, 2);
    let to = key.substring_char(2, 4);
    if iso_639_3_code(from).is_none() || iso_639_3_code(to).is_none() {
        return Err(AppError::InvalidPairKey { pair: String::from_str(key) });
    }
    Ok(LanguagePair { source: String::from_str(from), target: String::from_str(to) })
}

/// All four files of a model were found.
pub open spec fn paths_complete(p: PathsView) -> bool {
    p.0.len() > 0 && p.1.len() > 0 && p.2.len() > 0 && p.3.len() > 0
}

/// What preparing the model directory `dir` gives: an error naming the
/// pair where a file is missing, then where its name is no pair key; else
/// the bundle of that pair with the configuration of its files.
pub open spec fn prepared_as(dir: ModelDir, r: Result<ModelBundle, AppError>) -> bool {
    let p = paths_of(dir.files@);
    let key = dir.pair_key@;
    if !paths_complete(p) {
        r matches Err(AppError::MissingModelFiles { pair }) && pair@ == key
    } else if !key_valid(key) {
        r matches Err(AppError::InvalidPairKey { pair }) && pair@ == key
    } else {
        &&& r is Ok
        &&& r->Ok_0.pair_key@ == key
        &&& r->Ok_0.pair.source@ == key.subrange(0, 2)
        &&& r->Ok_0.pair.target@ == key.subrange(2, 4)
        &&& r->Ok_0.config@ == config_text(p.2, p.0, p.1, p.3)
    }
}

/// Prepares one model directory for the engine.
pub fn prepare_model(dir: &ModelDir) -> (r: Result<ModelBundle, AppError>)
    ensures
        prepared_as(*dir, r),
{
    let files = collect_model_files(&dir.files);
    if files.model_path.unicode_len() == 0 || files.src_vocab_path.unicode_len() == 0
        || files.trg_vocab_path.unicode_len() == 0 || files.shortlist_path.unicode_len() == 0 {
        return Err(AppError::MissingModelFiles { pair: dir.pair_key.clone() });
    }
    let config = build_config(
        files.model_path.as_str(),
        files.src_vocab_path.as_str(),
        files.trg_vocab_path.as_str(),
        files.shortlist_path.as_str(),
    );
    match parse_pair_key(dir.pair_key.as_str()) {
        Ok(pair) => Ok(ModelBundle { pair_key: dir.pair_key.clone(), config, pair }),
        Err(e) => Err(e),
    }
}

/// What discovering the model directories `dirs` gives: every bundle, in
/// order, where each directory prepares; else the error of the first that
/// does not.
pub open spec fn discovered_as(dirs: Seq<ModelDir>, r: Result<Vec<ModelBundle>, AppError>) -> bool {
    match r {
        Ok(bundles) => bundles@.len() == dirs.len() && forall|i: int|
            0 <= i < dirs.len() ==> prepared_as(#[trigger] dirs[i], Ok(bundles@[i])),
        Err(e) => exists|k: int|
            0 <= k < dirs.len() && prepared_as(dirs[k], Err(e)) && forall|i: int|
                0 <= i < k ==> !prepared_as(#[trigger] dirs[i], Err(e)) && exists|
                    b: ModelBundle,
                | prepared_as(dirs[i], Ok(b)),
    }
}

/// Prepares every model directory of the models root, stopping at the
/// first that fails: a missing pair is worse than a failed start.
pub fn discover(dirs: &Vec<ModelDir>) -> (r: Result<Vec<ModelBundle>, AppError>)
    ensures
        discovered_as(dirs@, r),
{
    let mut bundles: Vec<ModelBundle> = Vec::new();
    let mut i: usize = 0;
    while i < dirs.len()
        invariant
            i <= dirs@.len(),
            bundles@.len() == i,
            forall|j: int| 0 <= j < i ==> prepared_as(#[trigger] dirs@[j], Ok(bundles@[j])),
        decreases dirs@.len() - i,
    {
        match prepare_model(&dirs[i]) {
            Ok(b) => {
                bundles.push(b);
                assert(prepared_as(dirs@[i as int], Ok(bundles@[i as int])));
            },
            Err(e) => {
                assert forall|j: int| 0 <= j < i implies !prepared_as(#[trigger] dirs@[j], Err(e))
                    && exists|b: ModelBundle| prepared_as(dirs@[j], Ok(b)) by {
                    assert(prepared_as(dirs@[j], Ok(bundles@[j])));
                }
                return Err(e);
            },
        }
        i = i + 1;
    }
    Ok(bundles)
}

/// The pairs that a registry holds, as views.
pub open spec fn pair_views(pairs: Seq<LanguagePair>) -> Seq<(Seq<char>, Seq<char>)> {
    pairs.map_values(|p: LanguagePair| (p.source@, p.target@))
}

/// The pairs of `bundles`, in order.
pub open spec fn bundle_pairs(bundles: Seq<ModelBundle>) -> Seq<(Seq<char>, Seq<char>)> {
    bundles.map_values(|b: ModelBundle| (b.pair.source@, b.pair.target@))
}

/// The set of language pairs whose models the engine has loaded. It is
/// filled once at startup and only read afterwards.
pub struct Registry {
    pub pairs: Vec<LanguagePair>,
}

impl Registry {
    /// The supported pairs, in order of registration.
    pub open spec fn supported(&self) -> Seq<(Seq<char>, Seq<char>)> {
        pair_views(self.pairs@)
    }

    /// An empty registry.
    pub fn new() -> (r: Registry)
        ensures
            r.supported().len() == 0,
    {
        Registry { pairs: Vec::new() }
    }

    /// Records the pair of a bundle that the engine has loaded.
    pub fn register(&mut self, bundle: &ModelBundle)
        ensures
            final(self).supported() == old(self).supported().push(
                (bundle.pair.source@, bundle.pair.target@),
            ),
    {
        self.pairs.push(bundle.pair.clone_pair());
        assert(pair_views(self.pairs@) =~= pair_views(old(self).pairs@).push(
            (bundle.pair.source@, bundle.pair.target@),
        ));
    }

    /// Whether a model from `from` to `to` was registered.
    pub fn is_supported(&self, from: &str, to: &str) -> (r: bool)
        ensures
            r == self.supported().contains((from@, to@)),
    {
        let ghost sup = self.supported();
        let mut i: usize = 0;
        while i < self.pairs.len()
            invariant
                i <= self.pairs@.len(),
                sup == pair_views(self.pairs@),
                forall|j: int| 0 <= j < i ==> sup[j] != (from@, to@),
            decreases self.pairs@.len() - i,
        {
            if same_text(self.pairs[i].source.as_str(), from) && same_text(
                self.pairs[i].target.as_str(),
                to,
            ) {
                assert(sup[i as int] == (from@, to@));
                return true;
            }
            i = i + 1;
        }
        assert(!sup.contains((from@, to@))) by {
            if sup.contains((from@, to@)) {
                let j = choose|j: int| 0 <= j < sup.len() && sup[j] == (from@, to@);
                assert(sup[j] != (from@, to@));
            }
        }
        false
    }

    /// The registered pairs.
    pub fn models(&self) -> (r: &Vec<LanguagePair>)
        ensures
            r@ == self.pairs@,
    {
        &self.pairs
    }
}

/// A registry whose pairs are those of `bundles`, in order.
pub fn registry_of(bundles: &Vec<ModelBundle>) -> (r: Registry)
    ensures
        r.supported() == bundle_pairs(bundles@),
{
    let mut reg = Registry::new();
    let mut i: usize = 0;
    while i < bundles.len()
        invariant
            i <= bundles@.len(),
            reg.supported() =~= bundle_pairs(bundles@.take(i as int)),
        decreases bundles@.len() - i,
    {
        reg.register(&bundles[i]);
        assert(bundles@.take(i as int + 1) =~= bundles@.take(i as int).push(bundles@[i as int]));
        i = i + 1;
    }
    assert(bundles@.take(i as int) =~= bundles@);
    reg
}

/// Discovery over complete, well-named model directories succeeds, and the
/// pair of each directory is then supported; where a directory misses a
/// file and every one before it prepares, discovery fails naming its pair.
pub proof fn lemma_discovery_outcome(dirs: Seq<ModelDir>, r: Result<Vec<ModelBundle>, AppError>)
    requires
        discovered_as(dirs, r),
    ensures
        (forall|i: int|
            0 <= i < dirs.len() ==> paths_complete(paths_of(#[trigger] dirs[i].files@)) && key_valid(
                dirs[i].pair_key@,
            )) ==> r is Ok && forall|i: int|
            0 <= i < dirs.len() ==> #[trigger] bundle_pairs(r->Ok_0@).contains((dirs[i].pair_key@.subrange(0, 2), dirs[i].pair_key@.subrange(2, 4))),
        forall|k: int|
            0 <= k < dirs.len() && !paths_complete(paths_of(#[trigger] dirs[k].files@)) && (
            forall|i: int|
                0 <= i < k ==> paths_complete(paths_of(#[trigger] dirs[i].files@)) && key_valid(
                    dirs[i].pair_key@,
                )) ==> (r matches Err(AppError::MissingModelFiles { pair }) && pair@
                == dirs[k].pair_key@),
{
    if forall|i: int|
        0 <= i < dirs.len() ==> paths_complete(paths_of(#[trigger] dirs[i].files@)) && key_valid(
            dirs[i].pair_key@,
        ) {
        if let Err(e) = r {
            let k = choose|k: int|
                0 <= k < dirs.len() && prepared_as(dirs[k], Err(e)) && forall|i: int|
                    0 <= i < k ==> !prepared_as(#[trigger] dirs[i], Err(e)) && exists|
                        b: ModelBundle,
                    | prepared_as(dirs[i], Ok(b));
            assert(paths_complete(paths_of(dirs[k].files@)) && key_valid(dirs[k].pair_key@));
        } else {
            let bundles = r->Ok_0@;
            let pv = bundle_pairs(bundles);
            assert forall|i: int| 0 <= i < dirs.len() implies #[trigger] pv.contains(
                (dirs[i].pair_key@.subrange(0, 2), dirs[i].pair_key@.subrange(2, 4)),
            ) by {
                assert(prepared_as(dirs[i], Ok(bundles[i])));
                assert(pv[i] == (
                    dirs[i].pair_key@.subrange(0, 2),
                    dirs[i].pair_key@.subrange(2, 4),
                ));
            }
        }
    }
    assert forall|k: int|
        0 <= k < dirs.len() && !paths_complete(paths_of(#[trigger] dirs[k].files@)) && (forall|
            i: int,
        |
            0 <= i < k ==> paths_complete(paths_of(#[trigger] dirs[i].files@)) && key_valid(
                dirs[i].pair_key@,
            )) implies (r matches Err(AppError::MissingModelFiles { pair }) && pair@
        == dirs[k].pair_key@) by {
        match r {
            Ok(bundles) => {
                assert(prepared_as(dirs[k], Ok(bundles@[k])));
            },
            Err(e) => {
                let m = choose|m: int|
                    0 <= m < dirs.len() && prepared_as(dirs[m], Err(e)) && forall|i: int|
                        0 <= i < m ==> !prepared_as(#[trigger] dirs[i], Err(e)) && exists|
                            b: ModelBundle,
                        | prepared_as(dirs[i], Ok(b));
                if m < k {
                    assert(paths_complete(paths_of(dirs[m].files@)) && key_valid(dirs[m].pair_key@));
                } else if m > k {
                    assert(!prepared_as(dirs[k], Err(e)));
                    let b = choose|b: ModelBundle| prepared_as(dirs[k], Ok(b));
                }
            },
        }
    }
}

} // verus!
