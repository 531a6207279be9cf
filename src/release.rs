use vstd::prelude::*;

verus! {

/// One downloadable file of a published release.
pub struct ReleaseAsset {
    pub name: String,
    pub download_url: String,
}

/// The latest release: its version and its assets, in published order.
pub struct Release {
    pub version: String,
    pub assets: Vec<ReleaseAsset>,
}

pub struct AssetModel {
    pub name: Seq<char>,
    pub url: Seq<char>,
}

pub struct ReleaseModel {
    pub version: Seq<char>,
    pub assets: Seq<AssetModel>,
}

impl View for ReleaseAsset {
    type V = AssetModel;

    open spec fn view(&self) -> AssetModel {
        AssetModel { name: self.name@, url: self.download_url@ }
    }
}

impl View for Release {
    type V = ReleaseModel;

    open spec fn view(&self) -> ReleaseModel {
        ReleaseModel {
            version: self.version@,
            assets: self.assets@.map_values(|a: ReleaseAsset| a@),
        }
    }
}

/// `i` is the first position of an asset called `name`.
pub open spec fn is_first_asset(assets: Seq<AssetModel>, name: Seq<char>, i: int) -> bool {
    &&& 0 <= i < assets.len()
    &&& assets[i].name == name
    &&& forall|j: int| 0 <= j < i ==> assets[j].name != name
}

/// The first asset called `name`, if any.
pub open spec fn spec_find_asset(assets: Seq<AssetModel>, name: Seq<char>) -> Option<AssetModel> {
    if exists|i: int| is_first_asset(assets, name, i) {
        Some(assets[choose|i: int| is_first_asset(assets, name, i)])
    } else {
        None
    }
}

pub proof fn lemma_first_asset_unique(assets: Seq<AssetModel>, name: Seq<char>, i: int, k: int)
    requires
        is_first_asset(assets, name, i),
        is_first_asset(assets, name, k),
    ensures
        i == k,
{
}

/// Finds the asset whose name is exactly `name`; the first one where several share it.
pub fn find_asset<'a>(release: &'a Release, name: &String) -> (r: Option<&'a ReleaseAsset>)
    ensures
        r.is_some() == spec_find_asset(release@.assets, name@).is_some(),
        r.is_some() ==> r->0@ == spec_find_asset(release@.assets, name@)->0,
{
    let ghost assets = release@.assets;
    let mut i: usize = 0;
    while i < release.assets.len()
        invariant
            0 <= i <= release.assets@.len(),
            assets == release@.assets,
            assets.len() == release.assets@.len(),
            forall|j: int| 0 <= j < i ==> assets[j].name != name@,
        decreases release.assets.len() - i,
    {
        let asset = &release.assets[i];
        if asset.name == *name {
            proof {
                assert(is_first_asset(assets, name@, i as int));
                let k = choose|k: int| is_first_asset(assets, name@, k);
                lemma_first_asset_unique(assets, name@, i as int, k);
            }
            return Some(asset);
        }
        i = i + 1;
    }
    proof {
        assert forall|k: int| !is_first_asset(assets, name@, k) by {
            if 0 <= k < assets.len() {
                assert(assets[k].name != name@);
            }
        }
    }
    None
}

} // verus!
