//! Rockchip USB IDs: the SoC each one stands for, and the SPL loader
//! bundled for it, if any.
use vstd::prelude::*;

verus! {

/// One row of the loader map.
#[derive(Clone, Copy)]
pub struct LoaderMapEntry {
    pub vid: u16,
    pub pid: u16,
    pub soc: &'static str,
    pub filename: Option<&'static str>,
}

/// The loader map, row by row.
pub open spec fn loader_table() -> Seq<LoaderMapEntry> {
    seq![
        LoaderMapEntry { vid: 0x2207, pid: 0x110c, soc: "RV1106", filename: None },
        LoaderMapEntry { vid: 0x2207, pid: 0x180a, soc: "RK1808", filename: None },
        LoaderMapEntry { vid: 0x2207, pid: 0x281a, soc: "RK2818", filename: None },
        LoaderMapEntry { vid: 0x2207, pid: 0x290a, soc: "RK2918", filename: None },
        LoaderMapEntry { vid: 0x2207, pid: 0x292a, soc: "RK2928", filename: None },
        LoaderMapEntry { vid: 0x2207, pid: 0x292c, soc: "RK3026", filename: None },
        LoaderMapEntry { vid: 0x2207, pid: 0x300a, soc: "RK3066", filename: None },
        LoaderMapEntry { vid: 0x2207, pid: 0x300b, soc: "RK3168", filename: None },
        LoaderMapEntry { vid: 0x2207, pid: 0x301a, soc: "RK3036", filename: None },
        LoaderMapEntry { vid: 0x2207, pid: 0x310a, soc: "RK3066", filename: None },
        LoaderMapEntry { vid: 0x2207, pid: 0x310b, soc: "RK3188", filename: None },
        LoaderMapEntry { vid: 0x2207, pid: 0x310c, soc: "RK3128", filename: None },
        LoaderMapEntry { vid: 0x2207, pid: 0x320a, soc: "RK3288", filename: None },
        LoaderMapEntry { vid: 0x2207, pid: 0x320b, soc: "RK3228", filename: None },
        LoaderMapEntry { vid: 0x2207, pid: 0x320c, soc: "RK3328", filename: None },
        LoaderMapEntry { vid: 0x2207, pid: 0x330a, soc: "RK3368", filename: None },
        LoaderMapEntry { vid: 0x2207, pid: 0x330c, soc: "RK3399", filename: None },
        LoaderMapEntry { vid: 0x2207, pid: 0x330d, soc: "PX30", filename: None },
        LoaderMapEntry { vid: 0x2207, pid: 0x330e, soc: "RK3308", filename: None },
        LoaderMapEntry { vid: 0x2207, pid: 0x350a, soc: "RK3568", filename: None },
        LoaderMapEntry { vid: 0x2207, pid: 0x350b, soc: "RK3588", filename: Some("rk3588_spl_loader_v1.15.113.bin") },
        LoaderMapEntry { vid: 0x2207, pid: 0x350d, soc: "RK3562", filename: None },
        LoaderMapEntry { vid: 0x2207, pid: 0x350e, soc: "RK3576", filename: None },
        LoaderMapEntry { vid: 0x2207, pid: 0x350f, soc: "RK3506", filename: None },
    ]
}

/// The rows of the loader map.
pub fn loader_map() -> (res: Vec<LoaderMapEntry>)
    ensures
        res@ == loader_table(),
{
    let mut v: Vec<LoaderMapEntry> = Vec::new();
    v.push(LoaderMapEntry { vid: 0x2207, pid: 0x110c, soc: "RV1106", filename: None });
    v.push(LoaderMapEntry { vid: 0x2207, pid: 0x180a, soc: "RK1808", filename: None });
    v.push(LoaderMapEntry { vid: 0x2207, pid: 0x281a, soc: "RK2818", filename: None });
    v.push(LoaderMapEntry { vid: 0x2207, pid: 0x290a, soc: "RK2918", filename: None });
    v.push(LoaderMapEntry { vid: 0x2207, pid: 0x292a, soc: "RK2928", filename: None });
    v.push(LoaderMapEntry { vid: 0x2207, pid: 0x292c, soc: "RK3026", filename: None });
    v.push(LoaderMapEntry { vid: 0x2207, pid: 0x300a, soc: "RK3066", filename: None });
    v.push(LoaderMapEntry { vid: 0x2207, pid: 0x300b, soc: "RK3168", filename: None });
    v.push(LoaderMapEntry { vid: 0x2207, pid: 0x301a, soc: "RK3036", filename: None });
    v.push(LoaderMapEntry { vid: 0x2207, pid: 0x310a, soc: "RK3066", filename: None });
    v.push(LoaderMapEntry { vid: 0x2207, pid: 0x310b, soc: "RK3188", filename: None });
    v.push(LoaderMapEntry { vid: 0x2207, pid: 0x310c, soc: "RK3128", filename: None });
    v.push(LoaderMapEntry { vid: 0x2207, pid: 0x320a, soc: "RK3288", filename: None });
    v.push(LoaderMapEntry { vid: 0x2207, pid: 0x320b, soc: "RK3228", filename: None });
    v.push(LoaderMapEntry { vid: 0x2207, pid: 0x320c, soc: "RK3328", filename: None });
    v.push(LoaderMapEntry { vid: 0x2207, pid: 0x330a, soc: "RK3368", filename: None });
    v.push(LoaderMapEntry { vid: 0x2207, pid: 0x330c, soc: "RK3399", filename: None });
    v.push(LoaderMapEntry { vid: 0x2207, pid: 0x330d, soc: "PX30", filename: None });
    v.push(LoaderMapEntry { vid: 0x2207, pid: 0x330e, soc: "RK3308", filename: None });
    v.push(LoaderMapEntry { vid: 0x2207, pid: 0x350a, soc: "RK3568", filename: None });
    v.push(LoaderMapEntry { vid: 0x2207, pid: 0x350b, soc: "RK3588", filename: Some("rk3588_spl_loader_v1.15.113.bin") });
    v.push(LoaderMapEntry { vid: 0x2207, pid: 0x350d, soc: "RK3562", filename: None });
    v.push(LoaderMapEntry { vid: 0x2207, pid: 0x350e, soc: "RK3576", filename: None });
    v.push(LoaderMapEntry { vid: 0x2207, pid: 0x350f, soc: "RK3506", filename: None });
    assert(v@ =~= loader_table());
    v
}

/// Row `i` of the map is for `vid`/`pid`.
pub open spec fn row_matches(i: int, vid: u16, pid: u16) -> bool {
    loader_table()[i].vid == vid && loader_table()[i].pid == pid
}

/// The row for `vid`/`pid`: the first row with these IDs, if any.
pub fn entry_for(vid: u16, pid: u16) -> (res: Option<LoaderMapEntry>)
    ensures
        match res {
            Some(e) => exists|i: int|
                0 <= i < loader_table().len() && row_matches(i, vid, pid) && e == loader_table()[i]
                    && forall|j: int| 0 <= j < i ==> !row_matches(j, vid, pid),
            None => forall|i: int| 0 <= i < loader_table().len() ==> !row_matches(i, vid, pid),
        },
{
    let map = loader_map();
    let ghost t = loader_table();
    let mut i: usize = 0;
    while i < map.len()
        invariant
            map@ == t,
            t == loader_table(),
            i <= map@.len(),
            forall|j: int| 0 <= j < i ==> !row_matches(j, vid, pid),
        decreases map@.len() - i,
    {
        if map[i].vid == vid && map[i].pid == pid {
            return Some(map[i]);
        }
        i = i + 1;
    }
    None
}

/// The SoC name for `vid`/`pid`, if the map knows the IDs.
pub fn soc_name(vid: u16, pid: u16) -> (res: Option<&'static str>)
    ensures
        match res {
            Some(s) => exists|i: int|
                0 <= i < loader_table().len() && row_matches(i, vid, pid) && s == loader_table()[i].soc
                    && forall|j: int| 0 <= j < i ==> !row_matches(j, vid, pid),
            None => forall|i: int| 0 <= i < loader_table().len() ==> !row_matches(i, vid, pid),
        },
{
    match entry_for(vid, pid) {
        Some(e) => Some(e.soc),
        None => None,
    }
}

/// Law: no two rows of the loader map share their IDs, so each pair of IDs
/// stands for at most one SoC.
pub proof fn law_loader_ids_unique()
    ensures
        forall|i: int, j: int|
            0 <= i < j < loader_table().len() ==> !(loader_table()[i].vid == loader_table()[j].vid
                && loader_table()[i].pid == loader_table()[j].pid),
{
    assert forall|i: int, j: int|
        0 <= i < j < loader_table().len() implies !(loader_table()[i].vid == loader_table()[j].vid
        && loader_table()[i].pid == loader_table()[j].pid) by {
        assert(loader_table()[i].pid < loader_table()[j].pid);
    }
}

} // verus!
