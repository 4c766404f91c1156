use vstd::prelude::*;

verus! {

/// What a builder holds: the network chosen for scouting, if any, and the
/// path of a configuration file, if any.
pub ghost struct BuilderView {
    pub network: Option<(Seq<char>, u16)>,
    pub config_path: Option<Seq<char>>,
}

/// Collects the options of a node before it is built.
pub struct NodeBuilder {
    /// IPv4 address, as text, and port used to select the network.
    network: Option<(String, u16)>,
    /// Path of a configuration file.
    config_path: Option<String>,
}

impl View for NodeBuilder {
    type V = BuilderView;

    closed spec fn view(&self) -> BuilderView {
        BuilderView {
            network: match self.network {
                Some(nw) => Some((nw.0@, nw.1)),
                None => None,
            },
            config_path: match self.config_path {
                Some(p) => Some(p@),
                None => None,
            },
        }
    }
}

impl NodeBuilder {
    /// A builder with no network and no configuration file.
    pub fn new() -> (r: Self)
        ensures
            r@.network is None,
            r@.config_path is None,
    {
        Self { network: None, config_path: None }
    }

    /// Sets the path of the configuration file to load.
    pub fn set_config_path(&mut self, path: &str)
        ensures
            final(self)@.config_path == Some(path@),
            final(self)@.network == old(self)@.network,
    {
        self.config_path = Some(path.to_owned());
    }

    /// Sets the IPv4 address and port used to select the network.
    pub fn set_network(&mut self, nw: (String, u16))
        ensures
            final(self)@.network == Some((nw.0@, nw.1)),
            final(self)@.config_path == old(self)@.config_path,
    {
        self.network = Some(nw);
    }

    /// The configuration file path, if one was set.
    pub fn config_path(&self) -> (r: Option<String>)
        ensures
            r is Some <==> self@.config_path is Some,
            r is Some ==> self@.config_path == Some(r->0@),
    {
        match &self.config_path {
            Some(p) => Some(p.clone()),
            None => None,
        }
    }

    /// The network address and port, if they were set.
    pub fn network(&self) -> (r: Option<(String, u16)>)
        ensures
            r is Some <==> self@.network is Some,
            r is Some ==> self@.network == Some(((r->0).0@, (r->0).1)),
    {
        match &self.network {
            Some(nw) => Some((nw.0.clone(), nw.1)),
            None => None,
        }
    }
}

} // verus!
