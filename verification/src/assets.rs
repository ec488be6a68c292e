//! Asset index and content-addressed asset objects.
//!
//! Asset objects are stored under a two-character shard of their digest:
//! the digest doubles as the content address, and the derived path places
//! each object under `assets/objects/<first two hex chars>/<full hex>`.

use vstd::prelude::*;
use vstd::string::{StrSliceExecFns, StringExecFns};
use crate::batch::DownloadItem;

verus! {

/// Descriptor of a remote asset index document: its identifier, expected
/// SHA-1 digest, advisory sizes and remote locator.
#[derive(Debug)]
pub struct AssetIndexInfo {
    pub id: String,
    pub sha1: String,
    pub size: usize,
    pub total_size: Option<usize>,
    pub url: String,
}

impl AssetIndexInfo {
    /// The index document's local path under the assets directory.
    pub fn get_path(&self) -> (r: String)
        ensures
            r@ == "assets/indexes/"@ + self.id@ + ".json"@,
    {
        let prefix: String = String::from_str("assets/indexes/");
        let r = prefix.concat(self.id.as_str()).concat(".json");
        proof {
            assert(r@ =~= "assets/indexes/"@ + self.id@ + ".json"@);
        }
        r
    }

    /// The download item that materializes the index document itself: it
    /// is fetched like any artifact and checked as SHA-1.
    pub fn download_item(&self) -> (r: DownloadItem)
        ensures
            r.url@ == self.url@,
            r.path@ == "assets/indexes/"@ + self.id@ + ".json"@,
            r.hash matches Some(h) && h@ == self.sha1@,
            r.hash_function matches Some(f) && f@ == "sha1"@,
            r.extract == false,
    {
        DownloadItem {
            url: self.url.clone(),
            path: self.get_path(),
            hash: Some(self.sha1.clone()),
            hash_function: Some(String::from_str("sha1")),
            extract: false,
        }
    }
}

/// One content-addressed asset object: its lowercase hex SHA-1 digest,
/// which doubles as its content address.
#[derive(Debug)]
pub struct Object {
    pub hash: String,
}

impl Clone for Object {
    fn clone(&self) -> (r: Self)
        ensures
            r == *self,
    {
        Object { hash: self.hash.clone() }
    }
}

impl Object {
    /// The object's local path: the digest's first two characters name the
    /// shard directory, the full digest names the file.
    pub fn get_path(&self) -> (r: String)
        requires
            self.hash@.len() >= 2,
        ensures
            r@ == "assets/objects/"@ + self.hash@.subrange(0, 2) + "/"@ + self.hash@,
    {
        let shard = self.hash.as_str().substring_char(0, 2);
        let prefix: String = String::from_str("assets/objects/");
        let r = prefix.concat(shard).concat("/").concat(self.hash.as_str());
        proof {
            assert(r@ =~= "assets/objects/"@ + self.hash@.subrange(0, 2) + "/"@ + self.hash@);
        }
        r
    }

    /// The object's remote locator: the same shard and digest under the
    /// asset download endpoint.
    pub fn get_url(&self) -> (r: String)
        requires
            self.hash@.len() >= 2,
        ensures
            r@ == "https://resources.download.minecraft.net/"@ + self.hash@.subrange(0, 2) + "/"@
                + self.hash@,
    {
        let shard = self.hash.as_str().substring_char(0, 2);
        let prefix: String = String::from_str("https://resources.download.minecraft.net/");
        let r = prefix.concat(shard).concat("/").concat(self.hash.as_str());
        proof {
            assert(r@ =~= "https://resources.download.minecraft.net/"@ + self.hash@.subrange(0, 2)
                + "/"@ + self.hash@);
        }
        r
    }
}

/// One named entry of an asset index.
#[derive(Debug)]
pub struct AssetEntry {
    pub name: String,
    pub object: Object,
}

/// A parsed asset index: the ordered list of its named objects.
#[derive(Debug)]
pub struct AssetIndex {
    pub objects: Vec<AssetEntry>,
}

impl AssetIndex {
    /// Every object's digest is long enough to shard on.
    pub open spec fn wf(self) -> bool {
        forall|i: int| 0 <= i < self.objects@.len() ==> #[trigger] self.objects@[i].object.hash@.len() >= 2
    }

    /// Check that every object's digest is long enough to shard on.
    pub fn check(&self) -> (r: bool)
        ensures
            r == self.wf(),
    {
        let mut i: usize = 0;
        while i < self.objects.len()
            invariant
                i <= self.objects@.len(),
                forall|k: int| 0 <= k < i ==> #[trigger] self.objects@[k].object.hash@.len() >= 2,
            decreases self.objects@.len() - i,
        {
            if self.objects[i].object.hash.as_str().unicode_len() < 2 {
                return false;
            }
            i += 1;
        }
        true
    }

    /// How many objects the index declares.
    pub fn object_count(&self) -> (r: usize)
        ensures
            r == self.objects@.len(),
    {
        self.objects.len()
    }

    /// The download batch the index calls for: one item per object, in
    /// index order, each addressed by its digest under the sharded object
    /// store, fetched from the asset endpoint, and checked as SHA-1.
    /// Asset objects are plain files: none is marked for extraction.
    pub fn download_plan(&self) -> (r: Vec<DownloadItem>)
        requires
            self.wf(),
        ensures
            r@.len() == self.objects@.len(),
            forall|i: int|
                0 <= i < r@.len() ==> {
                    let hash = self.objects@[i].object.hash@;
                    &&& (#[trigger] r@[i]).url@ == "https://resources.download.minecraft.net/"@
                        + hash.subrange(0, 2) + "/"@ + hash
                    &&& r@[i].path@ == "assets/objects/"@ + hash.subrange(0, 2) + "/"@ + hash
                    &&& r@[i].hash matches Some(h) && h@ == hash
                    &&& r@[i].hash_function matches Some(f) && f@ == "sha1"@
                    &&& r@[i].extract == false
                },
    {
        let mut plan: Vec<DownloadItem> = Vec::new();
        let mut i: usize = 0;
        while i < self.objects.len()
            invariant
                i <= self.objects@.len(),
                self.wf(),
                plan@.len() == i,
                forall|k: int|
                    0 <= k < i ==> {
                        let hash = self.objects@[k].object.hash@;
                        &&& (#[trigger] plan@[k]).url@
                            == "https://resources.download.minecraft.net/"@ + hash.subrange(0, 2)
                            + "/"@ + hash
                        &&& plan@[k].path@ == "assets/objects/"@ + hash.subrange(0, 2) + "/"@
                            + hash
                        &&& plan@[k].hash matches Some(h) && h@ == hash
                        &&& plan@[k].hash_function matches Some(f) && f@ == "sha1"@
                        &&& plan@[k].extract == false
                    },
            decreases self.objects@.len() - i,
        {
            let object = &self.objects[i].object;
            let item = DownloadItem {
                url: object.get_url(),
                path: object.get_path(),
                hash: Some(object.hash.clone()),
                hash_function: Some(String::from_str("sha1")),
                extract: false,
            };
            plan.push(item);
            i += 1;
        }
        plan
    }
}

} // verus!
