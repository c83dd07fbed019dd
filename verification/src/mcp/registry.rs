//! The set of connected MCP servers, each under a unique name.

use vstd::prelude::*;
use super::{McpClient, McpToolInfo, McpResourceInfo, McpResourceContent};
use crate::text::concat;

verus! {

/// Index of `name` in `names`, if it occurs.
pub open spec fn index_of_name(names: Seq<Seq<char>>, name: Seq<char>) -> Option<int> {
    if exists|i: int| 0 <= i < names.len() && names[i] == name {
        Some(choose|i: int| 0 <= i < names.len() && names[i] == name)
    } else {
        None
    }
}

/// No name occurs twice.
pub open spec fn distinct_names(names: Seq<Seq<char>>) -> bool {
    forall|i: int, j: int| 0 <= i < names.len() && 0 <= j < names.len() && i != j ==> names[i] != names[j]
}

/// The names after registering `name`: an existing entry is replaced in place.
pub open spec fn registered(names: Seq<Seq<char>>, name: Seq<char>) -> Seq<Seq<char>> {
    if names.contains(name) { names } else { names.push(name) }
}

/// Error for a server that failed to connect.
pub open spec fn connect_failed_message(name: Seq<char>) -> Seq<char> {
    "Failed to connect to MCP server: "@ + name
}

/// Error for a server name that is not registered.
pub open spec fn server_not_found_message(name: Seq<char>) -> Seq<char> {
    "MCP server '"@ + name + "' not found"@
}

/// The listings of several servers, each item paired with its server's name;
/// a server whose listing failed contributes nothing.
pub open spec fn flattened<T>(names: Seq<Seq<char>>, listings: Seq<Result<Vec<T>, String>>) -> Seq<(Seq<char>, T)>
    decreases listings.len(),
{
    if listings.len() == 0 {
        Seq::empty()
    } else {
        let k = listings.len() - 1;
        flattened(names, listings.take(k)) + match listings[k] {
            Ok(v) => v@.map_values(|t: T| (names[k], t)),
            Err(_) => Seq::empty(),
        }
    }
}

/// View of a list of (server name, item) pairs.
pub open spec fn pair_views<T>(v: Seq<(String, T)>) -> Seq<(Seq<char>, T)> {
    v.map_values(|p: (String, T)| (p.0@, p.1))
}

/// Every item of a flattened listing comes from one of the named servers.
pub proof fn lemma_flattened_names<T>(names: Seq<Seq<char>>, listings: Seq<Result<Vec<T>, String>>, i: int)
    requires
        listings.len() <= names.len(),
        0 <= i < flattened(names, listings).len(),
    ensures
        exists|j: int| 0 <= j < listings.len() && names[j] == #[trigger] flattened(names, listings)[i].0,
    decreases listings.len(),
{
    let k = listings.len() - 1;
    let pre = flattened(names, listings.take(k));
    if i < pre.len() {
        lemma_flattened_names(names, listings.take(k), i);
        let j = choose|j: int| 0 <= j < k && names[j] == #[trigger] flattened(names, listings.take(k))[i].0;
        assert(names[j] == flattened(names, listings)[i].0);
    } else {
        assert(names[k] == flattened(names, listings)[i].0);
    }
}

/// Registering a server under `name` makes `name` found afterwards, keeps
/// every name registered before, and never lists a name twice; a name
/// registered again replaces the earlier server instead of adding one.
pub proof fn law_register_then_found(names: Seq<Seq<char>>, name: Seq<char>)
    requires
        distinct_names(names),
    ensures
        registered(names, name).contains(name),
        distinct_names(registered(names, name)),
        forall|n: Seq<char>| names.contains(n) ==> #[trigger] registered(names, name).contains(n),
        registered(names, name).len() == (if names.contains(name) { names.len() } else { names.len() + 1 }),
{
    let r = registered(names, name);
    if !names.contains(name) {
        assert(r[names.len() as int] == name);
        assert forall|n: Seq<char>| names.contains(n) implies #[trigger] r.contains(n) by {
            let i = choose|i: int| 0 <= i < names.len() && names[i] == n;
            assert(r[i] == n);
        }
    }
}

/// Pairs every item of every successful listing with its server's name, in order.
pub fn flatten_listings<T>(names: &Vec<String>, listings: Vec<Result<Vec<T>, String>>) -> (r: Vec<(String, T)>)
    requires
        names.len() == listings.len(),
    ensures
        pair_views(r@) == flattened(names.deep_view(), listings@),
{
    let ghost all = listings@;
    let mut rest = listings;
    let mut r: Vec<(String, T)> = Vec::new();
    let mut k: usize = 0;
    while k < names.len()
        invariant
            k <= names.len(),
            names.len() == all.len(),
            rest@ == all.skip(k as int),
            pair_views(r@) == flattened(names.deep_view(), all.take(k as int)),
        decreases names.len() - k,
    {
        let item = rest.remove(0);
        assert(item == all[k as int]);
        assert(all.take(k + 1).take(k as int) =~= all.take(k as int));
        assert(rest@ =~= all.skip(k + 1));
        match item {
            Ok(v) => {
                let ghost base = r@;
                let ghost vs = v@;
                let mut v = v;
                let mut m: usize = 0;
                let n = v.len();
                while m < n
                    invariant
                        m <= n,
                        n == vs.len(),
                        k < names.len(),
                        v@ == vs.skip(m as int),
                        r@.len() == base.len() + m,
                        r@.take(base.len() as int) == base,
                        forall|j: int| 0 <= j < m ==> #[trigger] r@[base.len() + j] == (names@[k as int], vs[j]),
                    decreases n - m,
                {
                    let t = v.remove(0);
                    assert(v@ =~= vs.skip(m + 1));
                    let name = names[k].clone();
                    let ghost before = r@;
                    r.push((name, t));
                    assert(r@.take(base.len() as int) =~= before.take(base.len() as int));
                    assert forall|j: int| 0 <= j < m + 1 implies #[trigger] r@[base.len() + j] == (names@[k as int], vs[j]) by {
                        if j < m {
                            assert(r@[base.len() + j] == before[base.len() + j]);
                        }
                    }
                    m = m + 1;
                }
                proof {
                    let tail = vs.map_values(|t: T| (names.deep_view()[k as int], t));
                    assert(pair_views(r@) =~= pair_views(base) + tail) by {
                        assert forall|j: int| 0 <= j < r@.len() implies pair_views(r@)[j] == (pair_views(base) + tail)[j] by {
                            if j < base.len() {
                                assert(r@[j] == r@.take(base.len() as int)[j]);
                            } else {
                                assert(r@[base.len() + (j - base.len())] == (names@[k as int], vs[j - base.len()]));
                            }
                        }
                    }
                }
            },
            Err(_) => {},
        }
        k = k + 1;
    }
    assert(all.take(names.len() as int) =~= all);
    r
}

/// The connected servers, each under its own name, in registration order.
pub struct McpRegistry<C> {
    clients: Vec<(String, C)>,
}

impl<C> McpRegistry<C> {
    /// Names of the registered servers, in registration order.
    pub closed spec fn names(&self) -> Seq<Seq<char>> {
        self.clients@.map_values(|e: (String, C)| e.0@)
    }

    /// The client registered at position `i`.
    pub closed spec fn client_at(&self, i: int) -> C {
        self.clients@[i].1
    }

    /// Well-formed: no name is registered twice.
    pub open spec fn wf(&self) -> bool {
        distinct_names(self.names())
    }

    /// An empty registry.
    pub fn new() -> (r: Self)
        ensures
            r.wf(),
            r.names() == Seq::<Seq<char>>::empty(),
    {
        let r = McpRegistry { clients: Vec::new() };
        assert(r.names() =~= Seq::<Seq<char>>::empty());
        r
    }

    /// Position of the server called `name`.
    fn position(&self, name: &str) -> (r: Option<usize>)
        requires
            self.wf(),
        ensures
            match r {
                Some(i) => i < self.names().len() && self.names()[i as int] == name@,
                None => !self.names().contains(name@),
            },
    {
        let mut i: usize = 0;
        while i < self.clients.len()
            invariant
                i <= self.clients.len(),
                forall|j: int| 0 <= j < i ==> self.names()[j] != name@,
            decreases self.clients.len() - i,
        {
            if crate::text::str_eq(self.clients[i].0.as_str(), name) {
                return Some(i);
            }
            i = i + 1;
        }
        None
    }

    /// In a well-formed registry the only position holding `name` is the one
    /// `index_of_name` finds.
    proof fn lemma_client_of_name(&self, name: Seq<char>)
        requires
            self.wf(),
        ensures
            forall|j: int| 0 <= j < self.names().len() && self.names()[j] == name
                ==> index_of_name(self.names(), name) == Some(j),
    {
        let names = self.names();
        assert forall|j: int| 0 <= j < names.len() && names[j] == name implies index_of_name(names, name) == Some(j) by {
            let k = choose|i: int| 0 <= i < names.len() && names[i] == name;
            assert(names[k] == name);
        }
    }

    /// The client registered under `name`.
    pub fn get(&self, name: &str) -> (r: Option<&C>)
        requires
            self.wf(),
        ensures
            r is Some <==> self.names().contains(name@),
            r is Some ==> index_of_name(self.names(), name@) is Some
                && *r->Some_0 == self.client_at(index_of_name(self.names(), name@)->Some_0),
    {
        match self.position(name) {
            Some(i) => {
                proof {
                    let names = self.names();
                    let j = index_of_name(names, name@)->Some_0;
                    assert(names[i as int] == name@);
                    assert(j == i);
                }
                Some(&self.clients[i].1)
            },
            None => None,
        }
    }
}

impl<C: McpClient> McpRegistry<C> {
    /// Connects `client` and registers it under `name`, replacing any server
    /// of that name. When the connection fails nothing is registered.
    pub fn register_client(&mut self, name: String, client: C) -> (r: Result<(), String>)
        requires
            old(self).wf(),
        ensures
            final(self).wf(),
            r is Err ==> final(self).names() == old(self).names()
                && r->Err_0@ == connect_failed_message(name@),
            r is Ok ==> final(self).names() == registered(old(self).names(), name@),
            forall|i: int| 0 <= i < old(self).names().len() && old(self).names()[i] != name@
                ==> final(self).client_at(i) == old(self).client_at(i),
    {
        let mut client = client;
        match client.connect() {
            Err(_) => Err(concat("Failed to connect to MCP server: ", name.as_str())),
            Ok(()) => {
                let ghost old_names = self.names();
                let ghost old_clients = self.clients@;
                match self.position(name.as_str()) {
                    Some(i) => {
                        let ghost nm = name@;
                        self.clients.set(i, (name, client));
                        assert(self.names() =~= old_names.update(i as int, nm));
                        assert(old_names.update(i as int, nm) =~= old_names);
                        assert(old_names.contains(nm));
                        assert forall|j: int| 0 <= j < old_names.len() && old_names[j] != nm
                            implies self.clients@[j] == old_clients[j] by {
                            assert(j != i);
                        }
                    },
                    None => {
                        let ghost nm = name@;
                        self.clients.push((name, client));
                        assert(self.names() =~= old_names.push(nm));
                        assert forall|j: int| 0 <= j < old_names.len() implies self.clients@[j] == old_clients[j] by {}
                    },
                }
                Ok(())
            },
        }
    }

    /// Calls `tool_name` on the server `server_name` with the JSON text `arguments`.
    /// An unknown server is refused; otherwise the answer is the server's.
    pub fn call_tool(&self, server_name: &str, tool_name: &str, arguments: &str) -> (r: Result<String, String>)
        requires
            self.wf(),
        ensures
            !self.names().contains(server_name@) ==> r is Err
                && r->Err_0@ == server_not_found_message(server_name@),
            forall|j: int| 0 <= j < self.names().len() && self.names()[j] == server_name@
                ==> #[trigger] self.client_at(j).answers_call(tool_name@, arguments@, r),
    {
        match self.get(server_name) {
            Some(c) => {
                let r = c.call_tool(tool_name, arguments);
                proof {
                    self.lemma_client_of_name(server_name@);
                }
                r
            },
            None => Err(not_found(server_name)),
        }
    }

    /// Reads `uri` from the server `server_name`.
    /// An unknown server is refused; otherwise the answer is the server's.
    pub fn read_resource(&self, server_name: &str, uri: &str) -> (r: Result<Vec<McpResourceContent>, String>)
        requires
            self.wf(),
        ensures
            !self.names().contains(server_name@) ==> r is Err
                && r->Err_0@ == server_not_found_message(server_name@),
            forall|j: int| 0 <= j < self.names().len() && self.names()[j] == server_name@
                ==> #[trigger] self.client_at(j).answers_read(uri@, r),
    {
        match self.get(server_name) {
            Some(c) => {
                let r = c.read_resource(uri);
                proof {
                    self.lemma_client_of_name(server_name@);
                }
                r
            },
            None => Err(not_found(server_name)),
        }
    }

    /// The tools of every server, each with its server's name; a server
    /// whose listing fails is left out.
    pub fn list_all_tools(&self) -> (r: Result<Vec<(String, McpToolInfo)>, String>)
        requires
            self.wf(),
        ensures
            r is Ok,
            exists|listings: Seq<Result<Vec<McpToolInfo>, String>>|
                listings.len() == self.names().len()
                && (forall|j: int| 0 <= j < listings.len() ==> #[trigger] self.client_at(j).answers_tool_listing(listings[j]))
                && pair_views(r->Ok_0@) == #[trigger] flattened(self.names(), listings),
            forall|i: int| 0 <= i < r->Ok_0@.len() ==> self.names().contains(#[trigger] r->Ok_0@[i].0@),
    {
        let mut names: Vec<String> = Vec::new();
        let mut listings: Vec<Result<Vec<McpToolInfo>, String>> = Vec::new();
        let mut i: usize = 0;
        while i < self.clients.len()
            invariant
                i <= self.clients.len(),
                names.len() == i,
                listings.len() == i,
                names.deep_view() == self.names().take(i as int),
                forall|j: int| 0 <= j < i ==> #[trigger] self.client_at(j).answers_tool_listing(listings@[j]),
            decreases self.clients.len() - i,
        {
            let ghost before = names.deep_view();
            names.push(self.clients[i].0.clone());
            assert(names.deep_view() =~= before.push(self.names()[i as int]));
            listings.push(self.clients[i].1.list_tools());
            i = i + 1;
        }
        let ghost nv = names.deep_view();
        let ghost lv = listings@;
        assert(nv =~= self.names());
        let r = flatten_listings(&names, listings);
        proof {
            assert(pair_views(r@) == flattened(self.names(), lv));
            assert forall|k: int| 0 <= k < r@.len() implies self.names().contains(#[trigger] r@[k].0@) by {
                assert(pair_views(r@)[k].0 == r@[k].0@);
                lemma_flattened_names(nv, lv, k);
                let j = choose|j: int| 0 <= j < lv.len() && nv[j] == #[trigger] flattened(nv, lv)[k].0;
                assert(self.names()[j] == r@[k].0@);
            }
        }
        Ok(r)
    }

    /// The resources of every server, each with its server's name; a server
    /// whose listing fails is left out.
    pub fn list_all_resources(&self) -> (r: Result<Vec<(String, McpResourceInfo)>, String>)
        requires
            self.wf(),
        ensures
            r is Ok,
            exists|listings: Seq<Result<Vec<McpResourceInfo>, String>>|
                listings.len() == self.names().len()
                && (forall|j: int| 0 <= j < listings.len() ==> #[trigger] self.client_at(j).answers_resource_listing(listings[j]))
                && pair_views(r->Ok_0@) == #[trigger] flattened(self.names(), listings),
            forall|i: int| 0 <= i < r->Ok_0@.len() ==> self.names().contains(#[trigger] r->Ok_0@[i].0@),
    {
        let mut names: Vec<String> = Vec::new();
        let mut listings: Vec<Result<Vec<McpResourceInfo>, String>> = Vec::new();
        let mut i: usize = 0;
        while i < self.clients.len()
            invariant
                i <= self.clients.len(),
                names.len() == i,
                listings.len() == i,
                names.deep_view() == self.names().take(i as int),
                forall|j: int| 0 <= j < i ==> #[trigger] self.client_at(j).answers_resource_listing(listings@[j]),
            decreases self.clients.len() - i,
        {
            let ghost before = names.deep_view();
            names.push(self.clients[i].0.clone());
            assert(names.deep_view() =~= before.push(self.names()[i as int]));
            listings.push(self.clients[i].1.list_resources());
            i = i + 1;
        }
        let ghost nv = names.deep_view();
        let ghost lv = listings@;
        assert(nv =~= self.names());
        let r = flatten_listings(&names, listings);
        proof {
            assert(pair_views(r@) == flattened(self.names(), lv));
            assert forall|k: int| 0 <= k < r@.len() implies self.names().contains(#[trigger] r@[k].0@) by {
                assert(pair_views(r@)[k].0 == r@[k].0@);
                lemma_flattened_names(nv, lv, k);
                let j = choose|j: int| 0 <= j < lv.len() && nv[j] == #[trigger] flattened(nv, lv)[k].0;
                assert(self.names()[j] == r@[k].0@);
            }
        }
        Ok(r)
    }
}

/// The error for an unknown server.
fn not_found(server_name: &str) -> (r: String)
    ensures
        r@ == server_not_found_message(server_name@),
{
    let mut s = String::from_str("MCP server '");
    s.append(server_name);
    s.append("' not found");
    s
}

} // verus!
