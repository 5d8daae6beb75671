//! The persisted list of server records, its invariant and its ordering.
//!
//! A record names one tunnel: the target instance, the credential
//! environment, the two ports and a display name.  The list is what the
//! front-end renders and reorders; reading it from disk and writing it back
//! are left to the embedding program, which hands the parsed records in and
//! takes them out as plain values.

use vstd::prelude::*;
use vstd::utf8::encode_utf8;
use crate::config::SessionConfig;

verus! {

broadcast use vstd::seq_lib::group_to_multiset_ensures;

/// One persisted server record.
#[derive(Clone, Debug, PartialEq)]
pub struct Server {
    /// Identifier of the remote target instance.
    pub identifier: String,
    /// Name of the credential environment (profile).
    pub env: String,
    /// Local port the tunnel listens on.
    pub host_port: usize,
    /// Display name.
    pub name: String,
    /// Remote port the tunnel forwards to.
    pub dest_port: usize,
}

impl Server {
    /// The record invariant: both ports are positive and the target
    /// identifier is non-empty.
    pub open spec fn valid(self) -> bool {
        &&& self.identifier@.len() > 0
        &&& self.host_port > 0
        &&& self.dest_port > 0
    }

    /// Checks the record invariant.
    pub fn is_valid(&self) -> (valid: bool)
        ensures
            valid == self.valid(),
    {
        !self.identifier.as_str().is_empty() && self.host_port > 0 && self.dest_port > 0
    }

    /// The session configuration this record describes: the stored
    /// environment name is the credential profile.
    pub fn session_config(&self) -> (config: SessionConfig)
        ensures
            config.identifier@ == self.identifier@,
            config.profile@ == self.env@,
            config.host_port == self.host_port,
            config.dest_port == self.dest_port,
            self.valid() ==> config.valid(),
    {
        SessionConfig {
            identifier: self.identifier.clone(),
            profile: self.env.clone(),
            host_port: self.host_port,
            dest_port: self.dest_port,
        }
    }
}

/// Why a list of records is rejected.
#[derive(Clone, Copy, Debug, PartialEq, Eq, Structural)]
pub enum ServersError {
    /// The record at this index breaks the invariant: an empty identifier or
    /// a port of zero.
    InvalidEntry { index: usize },
}

/// Lexicographic order on byte sequences: `a` may stand at or before `b`.
pub open spec fn bytes_le(a: Seq<u8>, b: Seq<u8>) -> bool
    decreases a.len(),
{
    if a.len() == 0 {
        true
    } else if b.len() == 0 {
        false
    } else if a[0] < b[0] {
        true
    } else if a[0] > b[0] {
        false
    } else {
        bytes_le(a.drop_first(), b.drop_first())
    }
}

/// The order on strings: their UTF-8 encodings compared byte for byte —
/// exactly the order in which Rust compares two `String`s.
pub open spec fn string_le(a: Seq<char>, b: Seq<char>) -> bool {
    bytes_le(encode_utf8(a), encode_utf8(b))
}

/// The byte order is total.
proof fn lemma_bytes_le_total(a: Seq<u8>, b: Seq<u8>)
    ensures
        bytes_le(a, b) || bytes_le(b, a),
    decreases a.len(),
{
    if a.len() > 0 && b.len() > 0 && a[0] == b[0] {
        lemma_bytes_le_total(a.drop_first(), b.drop_first());
    }
}

/// The byte order is transitive.
proof fn lemma_bytes_le_trans(a: Seq<u8>, b: Seq<u8>, c: Seq<u8>)
    requires
        bytes_le(a, b),
        bytes_le(b, c),
    ensures
        bytes_le(a, c),
    decreases a.len(),
{
    if a.len() > 0 && b.len() > 0 && c.len() > 0 && a[0] == b[0] && b[0] == c[0] {
        lemma_bytes_le_trans(a.drop_first(), b.drop_first(), c.drop_first());
    }
}

/// Compares two strings in byte order.
fn string_le_exec(a: &String, b: &String) -> (r: bool)
    ensures
        r == string_le(a@, b@),
{
    let ab = a.as_str().as_bytes();
    let bb = b.as_str().as_bytes();
    let mut i: usize = 0;
    proof {
        assert(ab@.skip(0) =~= ab@);
        assert(bb@.skip(0) =~= bb@);
    }
    loop
        invariant
            i <= ab@.len(),
            i <= bb@.len(),
            ab@ == encode_utf8(a@),
            bb@ == encode_utf8(b@),
            bytes_le(ab@.skip(i as int), bb@.skip(i as int)) == string_le(a@, b@),
        decreases ab@.len() - i,
    {
        if i >= ab.len() {
            proof {
                assert(ab@.skip(i as int) =~= Seq::<u8>::empty());
            }
            return true;
        }
        if i >= bb.len() {
            proof {
                assert(bb@.skip(i as int) =~= Seq::<u8>::empty());
                assert(ab@.skip(i as int).len() > 0);
            }
            return false;
        }
        let x = ab[i];
        let y = bb[i];
        proof {
            assert(ab@.skip(i as int)[0] == ab@[i as int]);
            assert(bb@.skip(i as int)[0] == bb@[i as int]);
        }
        if x < y {
            return true;
        }
        if x > y {
            return false;
        }
        proof {
            assert(ab@.skip(i as int).drop_first() =~= ab@.skip(i as int + 1));
            assert(bb@.skip(i as int).drop_first() =~= bb@.skip(i as int + 1));
        }
        i = i + 1;
    }
}

/// The key order of one column: by index, the display name, the target
/// identifier, the environment, the host port, and (all other indices) the
/// destination port.
pub open spec fn server_le(a: Server, b: Server, column: int) -> bool {
    if column == 0 {
        string_le(a.name@, b.name@)
    } else if column == 1 {
        string_le(a.identifier@, b.identifier@)
    } else if column == 2 {
        string_le(a.env@, b.env@)
    } else if column == 3 {
        a.host_port <= b.host_port
    } else {
        a.dest_port <= b.dest_port
    }
}

/// A direction in which a column can be ordered.
#[derive(Clone, Copy, Debug, PartialEq, Eq, Structural)]
pub enum SortDirection {
    Ascending,
    Descending,
}

/// `a` may stand at or before `b` under this column and direction.
pub open spec fn ordered(a: Server, b: Server, column: int, direction: SortDirection) -> bool {
    match direction {
        SortDirection::Ascending => server_le(a, b, column),
        SortDirection::Descending => server_le(b, a, column),
    }
}

/// Every pair of positions is in order.
pub open spec fn sorted_by_column(s: Seq<Server>, column: int, direction: SortDirection) -> bool {
    forall|i: int, j: int|
        0 <= i < j < s.len() ==> ordered(s[i], s[j], column, direction)
}

/// The column order is total.
proof fn lemma_server_le_total(a: Server, b: Server, column: int)
    ensures
        server_le(a, b, column) || server_le(b, a, column),
{
    if column == 0 {
        lemma_bytes_le_total(encode_utf8(a.name@), encode_utf8(b.name@));
    } else if column == 1 {
        lemma_bytes_le_total(encode_utf8(a.identifier@), encode_utf8(b.identifier@));
    } else if column == 2 {
        lemma_bytes_le_total(encode_utf8(a.env@), encode_utf8(b.env@));
    }
}

/// The column order is transitive.
proof fn lemma_server_le_trans(a: Server, b: Server, c: Server, column: int)
    requires
        server_le(a, b, column),
        server_le(b, c, column),
    ensures
        server_le(a, c, column),
{
    if column == 0 {
        lemma_bytes_le_trans(encode_utf8(a.name@), encode_utf8(b.name@), encode_utf8(c.name@));
    } else if column == 1 {
        lemma_bytes_le_trans(
            encode_utf8(a.identifier@),
            encode_utf8(b.identifier@),
            encode_utf8(c.identifier@),
        );
    } else if column == 2 {
        lemma_bytes_le_trans(encode_utf8(a.env@), encode_utf8(b.env@), encode_utf8(c.env@));
    }
}

/// Under either direction, some order holds between any two records.
proof fn lemma_ordered_total(a: Server, b: Server, column: int, direction: SortDirection)
    ensures
        ordered(a, b, column, direction) || ordered(b, a, column, direction),
{
    lemma_server_le_total(a, b, column);
}

/// Under either direction, the order is transitive.
proof fn lemma_ordered_trans(a: Server, b: Server, c: Server, column: int, direction: SortDirection)
    requires
        ordered(a, b, column, direction),
        ordered(b, c, column, direction),
    ensures
        ordered(a, c, column, direction),
{
    match direction {
        SortDirection::Ascending => lemma_server_le_trans(a, b, c, column),
        SortDirection::Descending => lemma_server_le_trans(c, b, a, column),
    }
}

/// Compares two records under one column's key.
fn le_by_column(a: &Server, b: &Server, column: usize) -> (r: bool)
    requires
        column < 5,
    ensures
        r == server_le(*a, *b, column as int),
{
    if column == 0 {
        string_le_exec(&a.name, &b.name)
    } else if column == 1 {
        string_le_exec(&a.identifier, &b.identifier)
    } else if column == 2 {
        string_le_exec(&a.env, &b.env)
    } else if column == 3 {
        a.host_port <= b.host_port
    } else {
        a.dest_port <= b.dest_port
    }
}

/// `a` may stand at or before `b` under this column and direction.
fn in_order(a: &Server, b: &Server, column: usize, direction: SortDirection) -> (r: bool)
    requires
        column < 5,
    ensures
        r == ordered(*a, *b, column as int, direction),
{
    match direction {
        SortDirection::Ascending => le_by_column(a, b, column),
        SortDirection::Descending => le_by_column(b, a, column),
    }
}

/// Sorts the records by one column: afterwards every pair is in order and
/// the records are the same, only rearranged.
fn sort_servers(v: &mut Vec<Server>, column: usize, direction: SortDirection)
    requires
        column < 5,
    ensures
        final(v)@.to_multiset() == old(v)@.to_multiset(),
        final(v)@.len() == old(v)@.len(),
        sorted_by_column(final(v)@, column as int, direction),
{
    let ghost orig = v@;
    if v.len() <= 1 {
        return ;
    }
    let mut i: usize = 1;
    while i < v.len()
        invariant
            column < 5,
            1 <= i <= v@.len(),
            v@.len() == orig.len(),
            v@.to_multiset() == orig.to_multiset(),
            sorted_by_column(v@.subrange(0, i as int), column as int, direction),
        decreases v@.len() - i,
    {
        let ghost prev = v@;
        let x = v.remove(i);
        proof {
            prev.remove_ensures(i as int);
            assert(v@.subrange(0, i as int) =~= prev.subrange(0, i as int));
        }
        let ghost base = v@;
        let mut j: usize = i;
        while j > 0 && !in_order(&v[j - 1], &x, column, direction)
            invariant
                column < 5,
                j <= i,
                i <= base.len(),
                v@ == base,
                sorted_by_column(base.subrange(0, i as int), column as int, direction),
                forall|m: int| j <= m < i ==> ordered(x, base[m], column as int, direction),
            decreases j,
        {
            proof {
                lemma_ordered_total(base[j - 1], x, column as int, direction);
            }
            j = j - 1;
        }
        proof {
            assert forall|m: int| 0 <= m < j implies ordered(
                base[m],
                x,
                column as int,
                direction,
            ) by {
                assert(ordered(base[j - 1], x, column as int, direction));
                if m < j - 1 {
                    assert(base.subrange(0, i as int)[m] == base[m]);
                    assert(base.subrange(0, i as int)[j - 1] == base[j - 1]);
                    assert(ordered(base[m], base[j - 1], column as int, direction));
                    lemma_ordered_trans(base[m], base[j - 1], x, column as int, direction);
                }
            }
        }
        v.insert(j, x);
        proof {
            base.insert_ensures(j as int, x);
            let w = v@;
            assert(w == base.insert(j as int, x));
            assert forall|p: int, q: int| 0 <= p < q < i + 1 implies ordered(
                w[p],
                w[q],
                column as int,
                direction,
            ) by {
                if q < j {
                    assert(base.subrange(0, i as int)[p] == base[p]);
                    assert(base.subrange(0, i as int)[q] == base[q]);
                    assert(ordered(base[p], base[q], column as int, direction));
                } else if q == j {
                    assert(ordered(base[p], x, column as int, direction));
                } else if p < j {
                    assert(w[q] == base[q - 1]);
                    if p < q - 1 {
                        assert(base.subrange(0, i as int)[p] == base[p]);
                        assert(base.subrange(0, i as int)[q - 1] == base[q - 1]);
                        assert(ordered(base[p], base[q - 1], column as int, direction));
                    }
                } else if p == j {
                    assert(w[q] == base[q - 1]);
                    assert(ordered(x, base[q - 1], column as int, direction));
                } else {
                    assert(w[p] == base[p - 1]);
                    assert(w[q] == base[q - 1]);
                    assert(base.subrange(0, i as int)[p - 1] == base[p - 1]);
                    assert(base.subrange(0, i as int)[q - 1] == base[q - 1]);
                    assert(ordered(base[p - 1], base[q - 1], column as int, direction));
                }
            }
            let sub = v@.subrange(0, i as int + 1);
            assert forall|p: int, q: int|
                #![trigger ordered(sub[p], sub[q], column as int, direction)]
                0 <= p < q < sub.len() implies ordered(sub[p], sub[q], column as int, direction) by {
                assert(sub[p] == w[p]);
                assert(sub[q] == w[q]);
                assert(ordered(w[p], w[q], column as int, direction));
            }
            assert(sorted_by_column(sub, column as int, direction));
            assert(prev[i as int] == x);
            assert(prev.contains(x));
            assert(base.to_multiset() =~= prev.to_multiset().remove(x));
            assert(v@.to_multiset() =~= base.to_multiset().insert(x));
            assert(v@.to_multiset() =~= prev.to_multiset());
        }
        i = i + 1;
    }
    proof {
        assert(v@.subrange(0, i as int) =~= v@);
    }
}

/// Which column the view is ordered by, and in which direction.
#[derive(Clone, Copy, Debug, PartialEq, Eq, Structural)]
pub struct SortState {
    pub column: usize,
    pub direction: SortDirection,
}

/// The other direction.
pub open spec fn spec_flip(direction: SortDirection) -> SortDirection {
    match direction {
        SortDirection::Ascending => SortDirection::Descending,
        SortDirection::Descending => SortDirection::Ascending,
    }
}

impl Default for SortState {
    /// The first column, ascending.
    fn default() -> (s: Self)
        ensures
            s.column == 0,
            s.direction is Ascending,
    {
        SortState { column: 0, direction: SortDirection::Ascending }
    }
}

impl SortState {
    /// A click on a column header: a second click on the column already
    /// sorted by flips the direction; a click on another column selects it,
    /// ascending.
    pub fn click(&mut self, column: usize)
        ensures
            final(self).column == column,
            old(self).column == column ==> final(self).direction == spec_flip(old(self).direction),
            old(self).column != column ==> final(self).direction is Ascending,
    {
        if self.column == column {
            self.direction = match self.direction {
                SortDirection::Ascending => SortDirection::Descending,
                SortDirection::Descending => SortDirection::Ascending,
            };
        } else {
            self.column = column;
            self.direction = SortDirection::Ascending;
        }
    }
}

/// The list of records together with where it is persisted.
pub struct ServerList {
    servers: Vec<Server>,
    path: String,
}

impl ServerList {
    /// The records, in display order.
    pub closed spec fn spec_servers(self) -> Seq<Server> {
        self.servers@
    }

    /// Where the list is persisted.
    pub closed spec fn spec_path(self) -> Seq<char> {
        self.path@
    }

    /// Every record obeys the invariant.
    pub open spec fn wf(self) -> bool {
        forall|i: int| 0 <= i < self.spec_servers().len() ==> self.spec_servers()[i].valid()
    }

    /// Builds the list from the records read from `path`.  A list with a
    /// record that breaks the invariant is rejected, naming the first such
    /// record.
    pub fn load(path: String, entries: Vec<Server>) -> (r: Result<ServerList, ServersError>)
        ensures
            (r is Ok) <==> (forall|i: int| 0 <= i < entries@.len() ==> entries@[i].valid()),
            r matches Ok(list) ==> {
                &&& list.spec_servers() == entries@
                &&& list.spec_path() == path@
                &&& list.wf()
            },
            r matches Err(e) ==> (e matches ServersError::InvalidEntry { index }
                && 0 <= (index as int) < entries@.len()
                && !entries@[index as int].valid()
                && (forall|j: int| 0 <= j < index as int ==> entries@[j].valid())),
    {
        let mut i: usize = 0;
        while i < entries.len()
            invariant
                i <= entries@.len(),
                forall|j: int| 0 <= j < i ==> entries@[j].valid(),
            decreases entries@.len() - i,
        {
            if !entries[i].is_valid() {
                return Err(ServersError::InvalidEntry { index: i });
            }
            i = i + 1;
        }
        Ok(ServerList { servers: entries, path })
    }

    /// How many records the list holds.
    pub fn len(&self) -> (n: usize)
        ensures
            n == self.spec_servers().len(),
    {
        self.servers.len()
    }

    /// The record at `index`.
    pub fn get(&self, index: usize) -> (server: &Server)
        requires
            index < self.spec_servers().len(),
        ensures
            *server == self.spec_servers()[index as int],
    {
        &self.servers[index]
    }

    /// The records, for the embedding program to persist.
    pub fn servers(&self) -> (servers: &Vec<Server>)
        ensures
            servers@ == self.spec_servers(),
    {
        &self.servers
    }

    /// Where the list is persisted.
    pub fn path(&self) -> (path: &String)
        ensures
            path@ == self.spec_path(),
    {
        &self.path
    }

    /// Appends a record.
    pub fn push(&mut self, server: Server)
        requires
            server.valid(),
        ensures
            final(self).spec_servers() == old(self).spec_servers().push(server),
            final(self).spec_path() == old(self).spec_path(),
            old(self).wf() ==> final(self).wf(),
    {
        self.servers.push(server);
        proof {
            if old(self).wf() {
                assert forall|i: int|
                    0 <= i < self.spec_servers().len() implies self.spec_servers()[i].valid() by {
                    if i < old(self).spec_servers().len() {
                        assert(self.spec_servers()[i] == old(self).spec_servers()[i]);
                    }
                }
            }
        }
    }

    /// Removes and returns the record at `index`.
    pub fn remove(&mut self, index: usize) -> (server: Server)
        requires
            index < old(self).spec_servers().len(),
        ensures
            server == old(self).spec_servers()[index as int],
            final(self).spec_servers() == old(self).spec_servers().remove(index as int),
            final(self).spec_path() == old(self).spec_path(),
            old(self).wf() ==> final(self).wf(),
    {
        let server = self.servers.remove(index);
        proof {
            old(self).spec_servers().remove_ensures(index as int);
        }
        server
    }

    /// Reorders the records by one column.  Column indices past the sortable
    /// five leave the list exactly as it is.
    pub fn sort_by_column(&mut self, column: usize, direction: SortDirection)
        ensures
            final(self).spec_servers().to_multiset() == old(self).spec_servers().to_multiset(),
            final(self).spec_servers().len() == old(self).spec_servers().len(),
            column < 5 ==> sorted_by_column(final(self).spec_servers(), column as int, direction),
            column >= 5 ==> final(self).spec_servers() == old(self).spec_servers(),
            final(self).spec_path() == old(self).spec_path(),
            old(self).wf() ==> final(self).wf(),
    {
        if column < 5 {
            sort_servers(&mut self.servers, column, direction);
            proof {
                if old(self).wf() {
                    assert forall|i: int|
                        0 <= i < self.spec_servers().len() implies self.spec_servers()[i].valid() by {
                        let s = self.spec_servers()[i];
                        assert(self.servers@.contains(s));
                        assert(self.servers@.to_multiset().count(s) > 0);
                        assert(old(self).servers@.to_multiset().count(s) > 0);
                        assert(old(self).servers@.contains(s));
                        let j = choose|j: int|
                            0 <= j < old(self).servers@.len() && old(self).servers@[j] == s;
                        assert(old(self).spec_servers()[j] == s);
                        assert(old(self).spec_servers()[j].valid());
                    }
                }
            }
        }
    }
}

} // verus!
