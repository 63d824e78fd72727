//! The port allow-list: which destination ports a server forwards to.

use vstd::prelude::*;

verus! {

/// The port that is forwarded to where the configuration names none.
pub const DEFAULT_PORT: u16 = 22;

/// A fixed set of permitted destination ports.
///
/// The set is built once and has no operation that changes it. It is kept
/// as a table with one entry for each of the 65536 ports, so that a lookup
/// is a single indexing step.
pub struct AllowedPorts {
    table: Vec<bool>,
}

impl View for AllowedPorts {
    type V = Set<u16>;

    closed spec fn view(&self) -> Set<u16> {
        Set::new(|port: u16| self.table@[port as int])
    }
}

impl AllowedPorts {
    #[verifier::type_invariant]
    spec fn well_formed(&self) -> bool {
        self.table@.len() == 65536
    }

    /// The allow-list that holds exactly the ports of `ports`. An empty
    /// list permits nothing.
    pub fn new(ports: &[u16]) -> (allowed: Self)
        ensures
            allowed@ == ports@.to_set(),
    {
        let mut table: Vec<bool> = vec![false; 65536];
        let mut i: usize = 0;
        while i < ports.len()
            invariant
                i <= ports.len(),
                table@.len() == 65536,
                forall|port: u16|
                    #![trigger table@[port as int]]
                    table@[port as int] <==> exists|j: int| 0 <= j < i && ports@[j] == port,
            decreases ports.len() - i,
        {
            let port = ports[i];
            let ghost before = table@;
            table.set(port as usize, true);
            assert forall|q: u16| #![trigger table@[q as int]] table@[q as int] <==> exists|j: int|
                0 <= j < i + 1 && ports@[j] == q by {
                if q != port && before[q as int] {
                    let j = choose|j: int| 0 <= j < i && ports@[j] == q;
                    assert(0 <= j < i + 1 && ports@[j] == q);
                }
            }
            i = i + 1;
        }
        let allowed = AllowedPorts { table };
        assert(allowed@ =~= ports@.to_set());
        allowed
    }

    /// The allow-list of a configuration: the listed ports where a list is
    /// given, the default port alone where none is.
    pub fn configured(ports: Option<Vec<u16>>) -> (allowed: Self)
        ensures
            ports matches Some(list) ==> allowed@ == list@.to_set(),
            ports is None ==> allowed@ == set![DEFAULT_PORT],
    {
        match ports {
            Some(list) => AllowedPorts::new(list.as_slice()),
            None => AllowedPorts::default(),
        }
    }

    /// Whether forwarding to `port` is permitted.
    pub fn authorize(&self, port: u16) -> (permitted: bool)
        ensures
            permitted == self@.contains(port),
    {
        proof {
            use_type_invariant(self);
        }
        self.table[port as usize]
    }
}

impl Default for AllowedPorts {
    /// The allow-list that holds the default port only.
    fn default() -> (allowed: Self)
        ensures
            allowed@ == set![DEFAULT_PORT],
    {
        let ports: [u16; 1] = [DEFAULT_PORT];
        let allowed = AllowedPorts::new(ports.as_slice());
        assert(allowed@ =~= set![DEFAULT_PORT]);
        allowed
    }
}

} // verus!
