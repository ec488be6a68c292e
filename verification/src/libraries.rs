//! Library artifacts and their platform applicability.
//!
//! A library is one downloadable jar artifact plus an optional rule list.
//! It applies to a platform when its artifact path carries no foreign
//! natives or architecture classifier and its rule list (if any) evaluates
//! to allow.

use vstd::prelude::*;
use vstd::string::StringExecFns;
use crate::batch::DownloadItem;
use crate::rules::{ArchName, Platform, Rule, rules_verdict, is_rule_list_valid, natives_token,
    spec_natives_token};
use crate::strutil::{contains_seq, str_contains};

verus! {

/// One downloadable artifact: a relative path under the libraries
/// directory, its expected SHA-1 digest in lowercase hex, its advisory
/// byte size, and its remote locator.
#[derive(Debug)]
pub struct Artifact {
    pub path: String,
    pub sha1: String,
    pub size: usize,
    pub url: String,
}

impl Clone for Artifact {
    fn clone(&self) -> (r: Self)
        ensures
            r == *self,
    {
        Artifact {
            path: self.path.clone(),
            sha1: self.sha1.clone(),
            size: self.size,
            url: self.url.clone(),
        }
    }
}

/// The download section of a library: the artifact and its rules.
#[derive(Debug)]
pub struct LibraryDownloads {
    pub artifact: Artifact,
    pub rules: Option<Vec<Rule>>,
}

/// One declared library.
#[derive(Debug)]
pub struct Library {
    pub downloads: LibraryDownloads,
}

/// The mathematical content of a library: its artifact and its rule list
/// as a sequence.
#[verifier::ext_equal]
pub struct LibraryModel {
    pub artifact: Artifact,
    pub rules: Option<Seq<Rule>>,
}

impl View for Library {
    type V = LibraryModel;

    open spec fn view(&self) -> LibraryModel {
        LibraryModel {
            artifact: self.downloads.artifact,
            rules: match self.downloads.rules {
                Option::None => Option::None,
                Option::Some(rs) => Option::Some(rs@),
            },
        }
    }
}

impl Clone for LibraryDownloads {
    fn clone(&self) -> (r: Self)
        ensures
            r.artifact == self.artifact,
            self.rules is None ==> r.rules is None,
            self.rules is Some ==> r.rules is Some && r.rules->0@ == self.rules->0@,
    {
        let rules = match &self.rules {
            Option::None => Option::None,
            Option::Some(rs) => {
                let mut out: Vec<Rule> = Vec::new();
                let mut i: usize = 0;
                while i < rs.len()
                    invariant
                        i <= rs@.len(),
                        out@ =~= rs@.take(i as int),
                    decreases rs@.len() - i,
                {
                    out.push(rs[i]);
                    i += 1;
                }
                proof {
                    assert(out@ =~= rs@);
                }
                Option::Some(out)
            },
        };
        LibraryDownloads { artifact: self.artifact.clone(), rules }
    }
}

impl Clone for Library {
    fn clone(&self) -> (r: Self)
        ensures
            r@ == self@,
    {
        let r = Library { downloads: self.downloads.clone() };
        proof {
            assert(r@ =~= self@);
        }
        r
    }
}

/// An ordered list of declared libraries.
pub type Libraries = Vec<Library>;

/// An artifact path is acceptable on a platform when it carries no natives
/// marker foreign to that platform, and no architecture token foreign to
/// that platform's architecture.
pub open spec fn spec_artifact_valid(path: Seq<char>, platform: Platform) -> bool {
    &&& !(contains_seq(path, "natives"@) && !contains_seq(path, spec_natives_token(platform)))
    &&& !(platform.arch != ArchName::X86_64 && contains_seq(path, "x86_64"@))
    &&& !(platform.arch != ArchName::Aarch64 && contains_seq(path, "aarch_64"@))
}

impl Artifact {
    /// Is this artifact applicable on `platform`, judged by its path alone?
    pub fn is_valid(&self, platform: &Platform) -> (r: bool)
        ensures
            r == spec_artifact_valid(self.path@, *platform),
    {
        if str_contains(self.path.as_str(), "natives") && !str_contains(
            self.path.as_str(),
            natives_token(platform),
        ) {
            return false;
        }
        if !(platform.arch == ArchName::X86_64) && str_contains(self.path.as_str(), "x86_64") {
            return false;
        }
        if !(platform.arch == ArchName::Aarch64) && str_contains(self.path.as_str(), "aarch_64") {
            return false;
        }
        true
    }

    /// The artifact's local path: its declared relative path under the
    /// libraries directory.
    pub fn get_path(&self) -> (r: String)
        ensures
            r@ == "libraries/"@ + self.path@,
    {
        let prefix: String = String::from_str("libraries/");
        prefix.concat(self.path.as_str())
    }
}

/// A library applies to a platform when its artifact path is acceptable
/// there and its rule list (when present) evaluates to allow.
pub open spec fn spec_library_valid(lib: LibraryModel, platform: Platform) -> bool {
    &&& spec_artifact_valid(lib.artifact.path@, platform)
    &&& match lib.rules {
        Option::None => true,
        Option::Some(rs) => rules_verdict(rs, platform),
    }
}

impl Library {
    /// Does this library apply to `platform`?
    pub fn is_valid(&self, platform: &Platform) -> (r: bool)
        ensures
            r == spec_library_valid(self@, *platform),
    {
        if !self.downloads.artifact.is_valid(platform) {
            return false;
        }
        match &self.downloads.rules {
            Option::None => true,
            Option::Some(rs) => is_rule_list_valid(rs, platform),
        }
    }

    /// The library's local path: its artifact's path under the libraries
    /// directory.
    pub fn get_path(&self) -> (r: String)
        ensures
            r@ == "libraries/"@ + self.downloads.artifact.path@,
    {
        self.downloads.artifact.get_path()
    }

    /// The download item that materializes this library's artifact,
    /// checked as SHA-1. Library jars are plain files: none is marked for
    /// extraction.
    pub fn download_item(&self) -> (r: DownloadItem)
        ensures
            r.url@ == self.downloads.artifact.url@,
            r.path@ == "libraries/"@ + self.downloads.artifact.path@,
            r.hash matches Some(h) && h@ == self.downloads.artifact.sha1@,
            r.hash_function matches Some(f) && f@ == "sha1"@,
            r.extract == false,
    {
        DownloadItem {
            url: self.downloads.artifact.url.clone(),
            path: self.get_path(),
            hash: Some(self.downloads.artifact.sha1.clone()),
            hash_function: Some(String::from_str("sha1")),
            extract: false,
        }
    }
}

/// The models, in order, of the libraries in `libs`.
pub open spec fn library_models(libs: Seq<Library>) -> Seq<LibraryModel> {
    libs.map_values(|lib: Library| lib@)
}

/// Batch operations over a list of libraries.
pub trait LibrariesExt {
    /// The models, in order, of the libraries that apply to `platform`.
    spec fn spec_valid_libraries(&self, platform: Platform) -> Seq<LibraryModel>;

    /// Keep exactly the libraries that apply to `platform`, in order.
    fn get_valid_libraries(&self, platform: &Platform) -> (r: Vec<Library>)
        ensures
            library_models(r@) == self.spec_valid_libraries(*platform),
    ;
}

impl LibrariesExt for Vec<Library> {
    open spec fn spec_valid_libraries(&self, platform: Platform) -> Seq<LibraryModel> {
        library_models(self@).filter(|lib: LibraryModel| spec_library_valid(lib, platform))
    }

    fn get_valid_libraries(&self, platform: &Platform) -> (r: Vec<Library>)
        ensures
            library_models(r@) == self.spec_valid_libraries(*platform),
    {
        let ghost pred = |lib: LibraryModel| spec_library_valid(lib, *platform);
        let mut out: Vec<Library> = Vec::new();
        let mut i: usize = 0;
        while i < self.len()
            invariant
                i <= self@.len(),
                library_models(out@) == library_models(self@.take(i as int)).filter(pred),
                pred == (|lib: LibraryModel| spec_library_valid(lib, *platform)),
            decreases self@.len() - i,
        {
            let lib = &self[i];
            let ghost prev_models = library_models(out@);
            if lib.is_valid(platform) {
                out.push(lib.clone());
                proof {
                    assert(library_models(out@) =~= prev_models.push(self@[i as int]@));
                }
            }
            proof {
                reveal(Seq::filter);
                let models_i = library_models(self@.take(i as int));
                let models_next = library_models(self@.take(i + 1));
                assert(models_next.drop_last() =~= models_i);
                assert(models_next.last() == self@[i as int]@);
                assert(models_next.filter(pred) == if pred(self@[i as int]@) {
                    models_i.filter(pred).push(self@[i as int]@)
                } else {
                    models_i.filter(pred)
                });
            }
            i += 1;
        }
        proof {
            assert(self@.take(self@.len() as int) =~= self@);
        }
        out
    }
}

} // verus!
