//! The ordered list of named configurations the user keeps, with the
//! selection the UI shows. Persistence reads and writes the list wholesale
//! outside this crate; here live the rules: never an empty list, a
//! selection always in range, and a single default record where nothing
//! was stored.

use vstd::prelude::*;

use crate::config::ClickerConfig;
use crate::config::is_default_config;

verus! {

/// The configuration list with its current selection.
pub struct ConfigStore {
    pub configs: Vec<ClickerConfig>,
    pub selected: usize,
}

impl ConfigStore {
    /// What every store reachable through this crate satisfies: at least
    /// one record, and a selection inside the list.
    pub open spec fn wf(self) -> bool {
        &&& self.configs@.len() > 0
        &&& self.selected < self.configs@.len()
    }

    /// The store the application starts with: the loaded records, or one
    /// default record where nothing (or an empty list) was stored. The
    /// first record is selected.
    pub fn from_loaded(loaded: Option<Vec<ClickerConfig>>) -> (s: Self)
        ensures
            s.wf(),
            s.selected == 0,
            match loaded {
                Some(list) => if list@.len() > 0 {
                    s.configs@ == list@
                } else {
                    s.configs@.len() == 1 && is_default_config(s.configs@[0])
                },
                None => s.configs@.len() == 1 && is_default_config(s.configs@[0]),
            },
    {
        match loaded {
            Some(list) => if list.len() > 0 {
                ConfigStore { configs: list, selected: 0 }
            } else {
                let configs = vec![ClickerConfig::default()];
                ConfigStore { configs, selected: 0 }
            },
            None => {
                let configs = vec![ClickerConfig::default()];
                ConfigStore { configs, selected: 0 }
            },
        }
    }

    /// The whole list, for display.
    pub fn list_configs(&self) -> (r: &Vec<ClickerConfig>)
        ensures
            r@ == self.configs@,
    {
        &self.configs
    }

    /// The record the selection points at.
    pub fn selected_config(&self) -> (r: &ClickerConfig)
        requires
            self.wf(),
        ensures
            *r == self.configs@[self.selected as int],
    {
        &self.configs[self.selected]
    }

    /// Moves the selection.
    pub fn select(&mut self, i: usize)
        requires
            old(self).wf(),
            i < old(self).configs@.len(),
        ensures
            final(self).wf(),
            final(self).configs@ == old(self).configs@,
            final(self).selected == i,
    {
        self.selected = i;
    }

    /// Appends a record and selects it.
    pub fn add_config(&mut self, config: ClickerConfig)
        requires
            old(self).wf(),
        ensures
            final(self).wf(),
            final(self).configs@ == old(self).configs@.push(config),
            final(self).selected == old(self).configs@.len(),
    {
        self.configs.push(config);
        self.selected = self.configs.len() - 1;
    }

    /// Replaces the selected record.
    pub fn update_config(&mut self, config: ClickerConfig)
        requires
            old(self).wf(),
        ensures
            final(self).wf(),
            final(self).configs@ == old(self).configs@.update(old(self).selected as int, config),
            final(self).selected == old(self).selected,
    {
        self.configs.set(self.selected, config);
    }

    /// Deletes the selected record. A list emptied this way is refilled
    /// with one default record, and the selection is clamped to the new
    /// end of the list.
    pub fn delete_config(&mut self)
        requires
            old(self).wf(),
        ensures
            final(self).wf(),
            old(self).configs@.len() > 1 ==> {
                &&& final(self).configs@ == old(self).configs@.remove(old(self).selected as int)
                &&& final(self).selected == if old(self).selected < old(self).configs@.len() - 1 {
                    old(self).selected as int
                } else {
                    old(self).configs@.len() - 2
                }
            },
            old(self).configs@.len() == 1 ==> {
                &&& final(self).configs@.len() == 1
                &&& is_default_config(final(self).configs@[0])
                &&& final(self).selected == 0
            },
    {
        self.configs.remove(self.selected);
        if self.configs.len() == 0 {
            self.configs.push(ClickerConfig::default());
        }
        if self.selected >= self.configs.len() {
            self.selected = self.configs.len() - 1;
        }
    }
}

} // verus!
