use vstd::prelude::*;

use crate::utils::str_eq;

verus! {

/// The daily step goal kept for a band, with its notification toggle.
#[derive(Clone, Debug)]
pub struct ActivityGoal {
    pub notifications: bool,
    pub steps: u16,
}

impl Default for ActivityGoal {
    fn default() -> (r: Self)
        ensures
            r.notifications == true,
            r.steps == 10000,
    {
        Self { notifications: true, steps: 10000 }
    }
}

/// The band's screen-lock configuration: a four-digit PIN over the digits
/// 1 to 4, and whether the lock is enabled.
#[derive(Clone, Debug)]
pub struct BandLock {
    pub pin: String,
    pub enabled: bool,
}

impl Default for BandLock {
    fn default() -> (r: Self)
        ensures
            r.pin@ == "1234"@,
            r.enabled == false,
    {
        Self { pin: String::from_str("1234"), enabled: false }
    }
}

/// Everything remembered about one band, keyed by its address.
#[derive(Clone, Debug)]
pub struct BandConf {
    pub auth_key: Option<String>,
    pub activity_goal: Option<ActivityGoal>,
    pub band_lock: Option<BandLock>,
    pub alias: Option<String>,
}

/// A band configuration with every field unset.
pub open spec fn spec_empty_conf() -> BandConf {
    BandConf { auth_key: None, activity_goal: None, band_lock: None, alias: None }
}

impl Default for BandConf {
    fn default() -> (r: Self)
        ensures
            r == spec_empty_conf(),
    {
        Self { auth_key: None, activity_goal: None, band_lock: None, alias: None }
    }
}

/// The first entry with the given address, if any.
pub open spec fn spec_find_band(bands: Seq<(String, BandConf)>, mac: Seq<char>) -> Option<int> {
    if exists|i: int| 0 <= i < bands.len() && bands[i].0@ == mac {
        Some(
            choose|i: int|
                0 <= i < bands.len() && #[trigger] bands[i].0@ == mac && forall|j: int|
                    0 <= j < i ==> bands[j].0@ != mac,
        )
    } else {
        None
    }
}

/// The alias recorded for a band, or its address where none is.
pub open spec fn spec_band_alias(bands: Seq<(String, BandConf)>, mac: Seq<char>) -> Seq<char> {
    match spec_find_band(bands, mac) {
        Some(i) => match bands[i].1.alias {
            Some(a) => a@,
            None => mac,
        },
        None => mac,
    }
}

/// The per-band configuration records, keyed by band address. Loading
/// and saving them is the surrounding application's business; the store
/// itself only answers and updates queries by address.
pub struct Store {
    pub bands: Vec<(String, BandConf)>,
}

fn find_band_index(bands: &Vec<(String, BandConf)>, mac: &str) -> (r: Option<usize>)
    ensures
        match r {
            Some(i) => i < bands@.len() && spec_find_band(bands@, mac@) == Some(i as int),
            None => spec_find_band(bands@, mac@) is None,
        },
{
    let n: usize = bands.len();
    for i in 0..n
        invariant
            n == bands@.len(),
            forall|j: int| 0 <= j < i ==> bands@[j].0@ != mac@,
    {
        if str_eq(bands[i].0.as_str(), mac) {
            proof {
                assert(spec_find_band(bands@, mac@) == Some(i as int));
            }
            return Some(i);
        }
    }
    None
}

impl Store {
    /// An empty store.
    pub fn new() -> (r: Self)
        ensures
            r.bands@.len() == 0,
    {
        Store { bands: Vec::new() }
    }

    /// The configuration for a band, created empty if the address is
    /// new; the returned reference updates the stored record in place.
    pub fn get_band(&mut self, band_mac: String) -> (r: &mut BandConf)
        ensures
            match spec_find_band(old(self).bands@, band_mac@) {
                Some(i) => *r == old(self).bands@[i].1 && final(self).bands@ =~= old(
                    self,
                ).bands@.update(i, (old(self).bands@[i].0, *final(r))),
                None => *r == spec_empty_conf() && final(self).bands@ =~= old(self).bands@.push(
                    (band_mac, *final(r)),
                ),
            },
    {
        let idx: usize = match find_band_index(&self.bands, band_mac.as_str()) {
            Some(i) => i,
            None => {
                let len: usize = self.bands.len();
                self.bands.push((band_mac, BandConf::default()));
                len
            },
        };
        let entry = &mut self.bands[idx];
        &mut entry.1
    }

    /// The band's alias, or its address where no alias is recorded.
    pub fn get_band_alias<'a>(&'a self, band_mac: &'a str) -> (r: &'a str)
        ensures
            r@ == spec_band_alias(self.bands@, band_mac@),
    {
        let n: usize = self.bands.len();
        for i in 0..n
            invariant
                n == self.bands@.len(),
                forall|j: int| 0 <= j < i ==> self.bands@[j].0@ != band_mac@,
        {
            if str_eq(self.bands[i].0.as_str(), band_mac) {
                proof {
                    assert(spec_find_band(self.bands@, band_mac@) == Some(i as int));
                }
                return match &self.bands[i].1.alias {
                    Some(a) => a.as_str(),
                    None => band_mac,
                };
            }
        }
        proof {
            assert(spec_find_band(self.bands@, band_mac@) is None);
        }
        band_mac
    }
}

} // verus!
