//! The helper that builds the first-generation system façade from a
//! configuration.

use vstd::prelude::*;

use crate::system_config::SystemConfig;

verus! {

/// The first-generation system: nothing but a name to query.
#[derive(Debug)]
pub struct System {
    pub name: String,
}

impl System {
    pub fn new(name: &str) -> (s: Self)
        ensures
            s.name@ == name@,
    {
        System { name: name.to_owned() }
    }

    pub fn name(&self) -> (r: String)
        ensures
            r@ == self.name@,
    {
        self.name.clone()
    }
}

/// Builds a system from a configuration, keeping the configuration for
/// later queries.
pub struct SystemBuilder {
    pub cfg: Option<SystemConfig>,
}

impl SystemBuilder {
    pub fn new() -> (b: Self)
        ensures
            b.cfg is None,
    {
        SystemBuilder::default()
    }

    pub fn build_with_config(&mut self, config: SystemConfig) -> (s: System)
        ensures
            s.name@ == config.name@,
            final(self).cfg == Some(config),
    {
        self.cfg = Some(config);
        let name = self.config().name();
        System::new(name.as_str())
    }

    fn config(&self) -> (r: &SystemConfig)
        requires
            self.cfg is Some,
        ensures
            *r == self.cfg->Some_0,
    {
        match &self.cfg {
            Some(c) => c,
            None => unreached(),
        }
    }
}

impl Default for SystemBuilder {
    fn default() -> (b: Self)
        ensures
            b.cfg is None,
    {
        SystemBuilder { cfg: None }
    }
}

} // verus!
