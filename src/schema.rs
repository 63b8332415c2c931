use vstd::prelude::*;

use crate::graph::same_text;
use crate::ids::KeyParseError;

verus! {

/// How the key of a kind in a built schema is written.
#[derive(Clone, Copy, Debug, PartialEq, Eq, Hash, Structural)]
pub enum KeyKind {
    /// A kind with a single node; any text names it.
    Unit,
    /// A kind keyed by a 32-bit unsigned number in decimal.
    U32,
}

/// The key of a node in a built schema.
#[derive(Clone, Copy, Debug, PartialEq, Eq, Hash, Structural)]
pub enum KeyValue {
    Unit,
    U32(u32),
}

/// A node of a built schema: the index of its kind and its key.
#[derive(Clone, Copy, Debug, PartialEq, Eq, Hash, Structural)]
pub struct SchemaNode {
    pub kind: usize,
    pub key: KeyValue,
}

/// An edge kind of a built schema: the `index`-th edge declared by kind `source`.
#[derive(Clone, Copy, Debug, PartialEq, Eq, Hash, Structural)]
pub struct SchemaEdge {
    pub source: usize,
    pub index: usize,
}

/// One edge in a declaration: its label and the name of the kind it leads to.
/// Most edges carry the target's name as label; another label tells apart
/// several edges between the same two kinds.
pub struct TargetDecl {
    pub label: String,
    pub target: String,
}

/// One row of a schema's declaration: a kind, its key, and its edges.
pub struct SchemaEntry {
    pub source: String,
    pub key: KeyKind,
    pub targets: Vec<TargetDecl>,
}

/// Why a declaration does not make a schema.
#[derive(Clone, Debug)]
pub enum SchemaError {
    /// Two rows declare the same kind.
    DuplicateKind(String),
    /// A row declares two edges with the same label.
    DuplicateEdge(String),
    /// An edge leads to a kind that no row declares.
    UnknownTarget(String),
}

/// The rows declare pairwise different kinds.
pub open spec fn distinct_sources(entries: Seq<SchemaEntry>) -> bool {
    forall|a: int, b: int|
        0 <= a < b < entries.len() ==> (#[trigger] entries[a]).source@ != (#[trigger] entries[b]).source@
}

/// No row declares two edges with the same label.
pub open spec fn distinct_labels(entries: Seq<SchemaEntry>) -> bool {
    forall|i: int, a: int, b: int|
        0 <= i < entries.len() && 0 <= a < b < entries[i].targets@.len() ==> (#[trigger] entries[i].targets@[a]).label@
            != (#[trigger] entries[i].targets@[b]).label@
}

/// Some row declares the kind named `n`.
pub open spec fn declares(entries: Seq<SchemaEntry>, n: Seq<char>) -> bool {
    exists|k: int| 0 <= k < entries.len() && (#[trigger] entries[k]).source@ == n
}

/// Every edge leads to a declared kind.
pub open spec fn targets_declared(entries: Seq<SchemaEntry>) -> bool {
    forall|i: int, j: int|
        0 <= i < entries.len() && 0 <= j < entries[i].targets@.len() ==> declares(
            entries,
            (#[trigger] entries[i].targets@[j]).target@,
        )
}

/// The value of a string of decimal digits.
pub open spec fn decimal_value(s: Seq<char>) -> nat
    decreases s.len(),
{
    if s.len() == 0 {
        0
    } else {
        (10 * decimal_value(s.drop_last()) + (s.last() as int - 48)) as nat
    }
}

pub open spec fn is_digit(c: char) -> bool {
    '0' <= c && c <= '9'
}

/// The digits of a number's text: all of it, or all but a leading `+`.
pub open spec fn digits_of(s: Seq<char>) -> Seq<char> {
    if s.len() > 0 && s[0] == '+' {
        s.drop_first()
    } else {
        s
    }
}

/// `s` is a 32-bit unsigned number in decimal.
pub open spec fn is_u32_text(s: Seq<char>) -> bool {
    let d = digits_of(s);
    d.len() > 0 && (forall|i: int| 0 <= i < d.len() ==> is_digit(#[trigger] d[i])) && decimal_value(d)
        <= u32::MAX
}

proof fn lemma_decimal_prefix(s: Seq<char>, i: int)
    requires
        0 <= i <= s.len(),
        forall|k: int| 0 <= k < s.len() ==> is_digit(#[trigger] s[k]),
    ensures
        decimal_value(s.subrange(0, i)) <= decimal_value(s),
    decreases s.len() - i,
{
    if i < s.len() {
        lemma_decimal_prefix(s, i + 1);
        let p = s.subrange(0, i + 1);
        assert(p.drop_last() =~= s.subrange(0, i));
    } else {
        assert(s.subrange(0, i) =~= s);
    }
}

/// Reads a 32-bit unsigned number written in decimal, with an optional leading `+`.
pub fn parse_u32(s: &str) -> (r: Option<u32>)
    ensures
        r.is_some() <==> is_u32_text(s@),
        r.is_some() ==> r.unwrap() as nat == decimal_value(digits_of(s@)),
{
    let n = s.unicode_len();
    let mut start: usize = 0;
    if n > 0 && s.get_char(0) == '+' {
        start = 1;
    }
    let ghost d = digits_of(s@);
    assert(d =~= s@.subrange(start as int, n as int));
    if start == n {
        return None;
    }
    let mut acc: u64 = 0;
    let mut i: usize = start;
    while i < n
        invariant
            n == s@.len(),
            start <= i <= n,
            d == digits_of(s@),
            d == s@.subrange(start as int, n as int),
            forall|k: int| 0 <= k < i - start ==> is_digit(#[trigger] d[k]),
            acc as nat == decimal_value(d.subrange(0, i - start)),
            acc <= u32::MAX,
        decreases n - i,
    {
        let c = s.get_char(i);
        assert(d[i - start] == c);
        if c < '0' || c > '9' {
            assert(!is_digit(d[i - start]));
            return None;
        }
        let ghost p = d.subrange(0, i - start + 1);
        assert(p.drop_last() =~= d.subrange(0, i - start));
        assert(p.last() == c);
        acc = 10 * acc + (c as u64 - 48);
        assert(acc as nat == decimal_value(p));
        if acc > u32::MAX as u64 {
            proof {
                if forall|k: int| 0 <= k < d.len() ==> is_digit(#[trigger] d[k]) {
                    lemma_decimal_prefix(d, i - start + 1);
                }
            }
            return None;
        }
        i = i + 1;
    }
    assert(d.subrange(0, n - start) =~= d);
    Some(acc as u32)
}

/// A schema built from a declaration: its kinds in the order declared, and for
/// each kind its edges in the order declared.
pub struct Schema {
    names: Vec<String>,
    keys: Vec<KeyKind>,
    labels: Vec<Vec<String>>,
    targets: Vec<Vec<usize>>,
}

impl Schema {
    /// The number of kinds.
    pub closed spec fn kind_count(&self) -> nat {
        self.names@.len()
    }

    /// The name of kind `t`.
    pub closed spec fn kind_name(&self, t: int) -> Seq<char> {
        self.names@[t]@
    }

    /// How keys of kind `t` are written.
    pub closed spec fn key_kind(&self, t: int) -> KeyKind {
        self.keys@[t]
    }

    /// The number of edges kind `t` declares.
    pub closed spec fn edge_count(&self, t: int) -> nat {
        self.targets@[t]@.len()
    }

    /// The label of the `j`-th edge of kind `t`.
    pub closed spec fn edge_label(&self, t: int, j: int) -> Seq<char> {
        self.labels@[t]@[j]@
    }

    /// The kind that the `j`-th edge of kind `t` leads to.
    pub closed spec fn edge_target(&self, t: int, j: int) -> int {
        self.targets@[t]@[j] as int
    }

    #[verifier::type_invariant]
    spec fn well_formed(&self) -> bool {
        &&& distinct_names(self.names@)
        &&& self.keys@.len() == self.names@.len()
        &&& self.labels@.len() == self.names@.len()
        &&& self.targets@.len() == self.names@.len()
        &&& forall|t: int|
            0 <= t < self.names@.len() ==> (#[trigger] self.labels@[t])@.len()
                == self.targets@[t]@.len()
        &&& forall|t: int, j: int|
            0 <= t < self.names@.len() && 0 <= j < self.targets@[t]@.len() ==> (
            #[trigger] self.targets@[t]@[j]) < self.names@.len()
    }

    /// `e` is an edge kind of this schema.
    pub open spec fn has_edge(&self, e: SchemaEdge) -> bool {
        e.source < self.kind_count() && e.index < self.edge_count(e.source as int)
    }

    /// Kind `t` is the root.
    pub open spec fn is_root(&self, t: int) -> bool {
        self.kind_name(t) == "Root"@
    }

    /// What the schema built from `entries` is.
    pub open spec fn built_from(&self, entries: Seq<SchemaEntry>) -> bool {
        &&& self.kind_count() == entries.len()
        &&& forall|t: int|
            0 <= t < entries.len() ==> {
                &&& self.kind_name(t) == (#[trigger] entries[t]).source@
                &&& self.key_kind(t) == entries[t].key
                &&& self.edge_count(t) == entries[t].targets@.len()
            }
        &&& forall|t: int, j: int|
            0 <= t < entries.len() && 0 <= j < entries[t].targets@.len() ==> {
                &&& self.edge_label(t, j) == (#[trigger] entries[t].targets@[j]).label@
                &&& 0 <= self.edge_target(t, j) < entries.len()
                &&& self.kind_name(self.edge_target(t, j)) == entries[t].targets@[j].target@
            }
    }

    /// Builds the schema that `entries` declare: one kind per row, in order, and
    /// one edge kind per edge of each row.
    pub fn new(entries: &Vec<SchemaEntry>) -> (r: Result<Schema, SchemaError>)
        ensures
            r.is_ok() <==> distinct_sources(entries@) && distinct_labels(entries@) && targets_declared(
                entries@,
            ),
            r.is_ok() ==> r.unwrap().built_from(entries@),
            r is Err && r->Err_0 is DuplicateKind ==> !distinct_sources(entries@),
            r is Err && r->Err_0 is DuplicateEdge ==> distinct_sources(entries@) && !distinct_labels(
                entries@,
            ),
            r is Err && r->Err_0 is UnknownTarget ==> distinct_sources(entries@) && !targets_declared(
                entries@,
            ),
    {
        let mut names: Vec<String> = Vec::new();
        let mut keys: Vec<KeyKind> = Vec::new();
        let mut i: usize = 0;
        while i < entries.len()
            invariant
                i <= entries@.len(),
                names@.len() == i,
                keys@.len() == i,
                forall|k: int| 0 <= k < i ==> (#[trigger] names@[k])@ == entries@[k].source@,
                forall|k: int| 0 <= k < i ==> (#[trigger] keys@[k]) == entries@[k].key,
                forall|a: int, b: int|
                    0 <= a < b < i ==> (#[trigger] entries@[a]).source@
                        != (#[trigger] entries@[b]).source@,
            decreases entries@.len() - i,
        {
            let e = &entries[i];
            if let Some(k) = find_name(&names, e.source.as_str()) {
                proof {
                    assert(entries@[k as int].source@ == entries@[i as int].source@);
                    assert(!distinct_sources(entries@));
                }
                return Err(SchemaError::DuplicateKind(e.source.clone()));
            }
            let ghost old_names = names@;
            names.push(e.source.clone());
            keys.push(e.key);
            proof {
                assert forall|a: int, b: int| 0 <= a < b < i + 1 implies (#[trigger] entries@[a]).source@
                    != (#[trigger] entries@[b]).source@ by {
                    if b == i {
                        assert(old_names[a]@ == entries@[a].source@);
                    }
                }
            }
            i = i + 1;
        }
        let mut labels: Vec<Vec<String>> = Vec::new();
        let mut targets: Vec<Vec<usize>> = Vec::new();
        let mut i: usize = 0;
        while i < entries.len()
            invariant
                i <= entries@.len(),
                names@.len() == entries@.len(),
                keys@.len() == entries@.len(),
                forall|k: int| 0 <= k < entries@.len() ==> (#[trigger] names@[k])@ == entries@[k].source@,
                forall|k: int| 0 <= k < entries@.len() ==> (#[trigger] keys@[k]) == entries@[k].key,
                distinct_sources(entries@),
                labels@.len() == i,
                targets@.len() == i,
                forall|t: int| 0 <= t < i ==> (#[trigger] labels@[t])@.len() == entries@[t].targets@.len(),
                forall|t: int| 0 <= t < i ==> (#[trigger] targets@[t])@.len() == entries@[t].targets@.len(),
                forall|t: int, j: int|
                    0 <= t < i && 0 <= j < entries@[t].targets@.len() ==> (#[trigger] labels@[t]@[j])@
                        == entries@[t].targets@[j].label@,
                forall|t: int, j: int|
                    0 <= t < i && 0 <= j < entries@[t].targets@.len() ==> (#[trigger] targets@[t]@[j])
                        < entries@.len() && names@[targets@[t]@[j] as int]@
                        == entries@[t].targets@[j].target@,
                forall|t: int, j: int|
                    0 <= t < i && 0 <= j < entries@[t].targets@.len() ==> declares(
                        entries@,
                        (#[trigger] entries@[t].targets@[j]).target@,
                    ),
                forall|t: int, a: int, b: int|
                    0 <= t < i && 0 <= a < b < entries@[t].targets@.len() ==> (
                    #[trigger] entries@[t].targets@[a]).label@ != (
                    #[trigger] entries@[t].targets@[b]).label@,
            decreases entries@.len() - i,
        {
            let row = &entries[i].targets;
            let mut row_labels: Vec<String> = Vec::new();
            let mut row_targets: Vec<usize> = Vec::new();
            let mut j: usize = 0;
            while j < row.len()
                invariant
                    i < entries@.len(),
                    row@ == entries@[i as int].targets@,
                    j <= row@.len(),
                    names@.len() == entries@.len(),
                    forall|k: int| 0 <= k < entries@.len() ==> (#[trigger] names@[k])@ == entries@[k].source@,
                    row_labels@.len() == j,
                    row_targets@.len() == j,
                    forall|k: int|
                        0 <= k < j ==> {
                            &&& (#[trigger] row_labels@[k])@ == row@[k].label@
                            &&& row_targets@[k] < entries@.len()
                            &&& names@[row_targets@[k] as int]@ == row@[k].target@
                        },
                    forall|k: int| 0 <= k < j ==> declares(entries@, (#[trigger] row@[k]).target@),
                    distinct_sources(entries@),
                    forall|a: int, b: int|
                        0 <= a < b < j ==> (#[trigger] row@[a]).label@ != (#[trigger] row@[b]).label@,
                decreases row@.len() - j,
            {
                let d = &row[j];
                if let Some(k) = find_name(&row_labels, d.label.as_str()) {
                    proof {
                        assert(row_labels@[k as int]@ == row@[k as int].label@);
                        assert(entries@[i as int].targets@[k as int] == row@[k as int]);
                        assert(entries@[i as int].targets@[j as int] == *d);
                    }
                    return Err(SchemaError::DuplicateEdge(d.label.clone()));
                }
                let ghost old_row_labels = row_labels@;
                match find_name(&names, d.target.as_str()) {
                    Some(k) => {
                        proof {
                            assert(entries@[k as int].source@ == d.target@);
                        }
                        row_labels.push(d.label.clone());
                        row_targets.push(k);
                        proof {
                            assert forall|a: int, b: int| 0 <= a < b < j + 1 implies (
                            #[trigger] row@[a]).label@ != (#[trigger] row@[b]).label@ by {
                                if b == j {
                                    assert(old_row_labels[a]@ == row@[a].label@);
                                }
                            }
                        }
                    },
                    None => {
                        proof {
                            assert forall|k: int| 0 <= k < entries@.len() implies (
                            #[trigger] entries@[k]).source@ != d.target@ by {
                                assert(names@[k]@ == entries@[k].source@);
                            }
                            assert(entries@[i as int].targets@[j as int] == *d);
                        }
                        return Err(SchemaError::UnknownTarget(d.target.clone()));
                    },
                }
                j = j + 1;
            }
            proof {
                assert forall|a: int, b: int|
                    0 <= a < b < entries@[i as int].targets@.len() implies (
                    #[trigger] entries@[i as int].targets@[a]).label@ != (
                    #[trigger] entries@[i as int].targets@[b]).label@ by {
                    assert(row@[a] == entries@[i as int].targets@[a]);
                    assert(row@[b] == entries@[i as int].targets@[b]);
                }
            }
            let ghost old_labels = labels@;
            let ghost old_targets = targets@;
            labels.push(row_labels);
            targets.push(row_targets);
            proof {
                assert forall|t: int, j: int|
                    0 <= t < i + 1 && 0 <= j < entries@[t].targets@.len() implies (
                    #[trigger] labels@[t]@[j])@ == entries@[t].targets@[j].label@ by {
                    if t == i {
                        assert(labels@[t] == row_labels);
                        assert(entries@[t].targets@[j] == row@[j]);
                        assert(row_labels@[j]@ == row@[j].label@);
                    } else {
                        assert(labels@[t] == old_labels[t]);
                    }
                }
                assert forall|t: int, j: int|
                    0 <= t < i + 1 && 0 <= j < entries@[t].targets@.len() implies (
                    #[trigger] targets@[t]@[j]) < entries@.len() && names@[targets@[t]@[j] as int]@
                        == entries@[t].targets@[j].target@ by {
                    if t == i {
                        assert(targets@[t] == row_targets);
                        assert(entries@[t].targets@[j] == row@[j]);
                        assert(row_labels@[j]@ == row@[j].label@);
                    } else {
                        assert(targets@[t] == old_targets[t]);
                    }
                }
                assert forall|t: int| 0 <= t < i + 1 implies (#[trigger] labels@[t])@.len()
                    == entries@[t].targets@.len() by {
                    if t < i {
                        assert(labels@[t] == old_labels[t]);
                    }
                }
                assert forall|t: int| 0 <= t < i + 1 implies (#[trigger] targets@[t])@.len()
                    == entries@[t].targets@.len() by {
                    if t < i {
                        assert(targets@[t] == old_targets[t]);
                    }
                }
            }
            i = i + 1;
        }
        proof {
            assert forall|a: int, b: int| 0 <= a < b < names@.len() implies (#[trigger] names@[a])@
                != (#[trigger] names@[b])@ by {
                assert(entries@[a].source@ != entries@[b].source@);
            }
        }
        proof {
            assert forall|t: int| 0 <= t < names@.len() implies (#[trigger] labels@[t])@.len()
                == targets@[t]@.len() by {
                assert(labels@[t]@.len() == entries@[t].targets@.len());
                assert(targets@[t]@.len() == entries@[t].targets@.len());
            }
            assert forall|t: int, j: int|
                0 <= t < names@.len() && 0 <= j < targets@[t]@.len() implies (
                #[trigger] targets@[t]@[j]) < names@.len() by {
                assert(targets@[t]@.len() == entries@[t].targets@.len());
            }
        }
        let s = Schema { names, keys, labels, targets };
        assert(s.built_from(entries@));
        Ok(s)
    }

    /// The number of kinds.
    pub fn node_type_count(&self) -> (r: usize)
        ensures
            r == self.kind_count(),
    {
        self.names.len()
    }

    /// The kind with the name `name`, if there is one.
    pub fn node_type(&self, name: &str) -> (r: Option<usize>)
        ensures
            r.is_some() ==> r.unwrap() < self.kind_count() && self.kind_name(r.unwrap() as int) == name@,
            r.is_none() ==> forall|t: int| 0 <= t < self.kind_count() ==> self.kind_name(t) != name@,
    {
        find_name(&self.names, name)
    }

    /// The name of kind `t`.
    pub fn node_type_name(&self, t: usize) -> (r: String)
        requires
            t < self.kind_count(),
        ensures
            r@ == self.kind_name(t as int),
    {
        self.names[t].clone()
    }

    /// Every edge kind of the schema, each once, by source kind and then in declared order.
    pub fn edge_types(&self) -> (r: Vec<SchemaEdge>)
        ensures
            forall|k: int| 0 <= k < r@.len() ==> self.has_edge(#[trigger] r@[k]),
            forall|e: SchemaEdge| self.has_edge(e) ==> r@.contains(e),
            r@.no_duplicates(),
    {
        proof {
            use_type_invariant(self);
        }
        let mut r: Vec<SchemaEdge> = Vec::new();
        let mut t: usize = 0;
        while t < self.targets.len()
            invariant
                t <= self.kind_count(),
                self.targets@.len() == self.kind_count(),
                forall|k: int| 0 <= k < r@.len() ==> self.has_edge(#[trigger] r@[k]) && r@[k].source < t,
                forall|e: SchemaEdge| self.has_edge(e) && e.source < t ==> r@.contains(e),
                forall|a: int, b: int|
                    0 <= a < b < r@.len() ==> edge_before(#[trigger] r@[a], #[trigger] r@[b]),
            decreases self.kind_count() - t,
        {
            let n = self.targets[t].len();
            let mut j: usize = 0;
            while j < n
                invariant
                    t < self.kind_count(),
                    self.targets@.len() == self.kind_count(),
                    n == self.edge_count(t as int),
                    j <= n,
                    forall|k: int|
                        0 <= k < r@.len() ==> self.has_edge(#[trigger] r@[k]) && (r@[k].source < t
                            || (r@[k].source == t && r@[k].index < j)),
                    forall|e: SchemaEdge|
                        self.has_edge(e) && (e.source < t || (e.source == t && e.index < j))
                            ==> r@.contains(e),
                    forall|a: int, b: int|
                        0 <= a < b < r@.len() ==> edge_before(#[trigger] r@[a], #[trigger] r@[b]),
                decreases n - j,
            {
                let ghost old_r = r@;
                r.push(SchemaEdge { source: t, index: j });
                proof {
                    assert forall|e: SchemaEdge|
                        self.has_edge(e) && (e.source < t || (e.source == t && e.index < j + 1))
                            implies r@.contains(e) by {
                        if e.source == t && e.index == j {
                            assert(r@[r@.len() - 1] == e);
                        } else {
                            assert(old_r.contains(e));
                            let k = choose|k: int| 0 <= k < old_r.len() && old_r[k] == e;
                            assert(r@[k] == e);
                        }
                    }
                }
                j = j + 1;
            }
            t = t + 1;
        }
        proof {
            assert forall|a: int, b: int| 0 <= a < r@.len() && 0 <= b < r@.len() && a != b implies r@[a]
                != r@[b] by {
                if a < b {
                    assert(edge_before(r@[a], r@[b]));
                } else {
                    assert(edge_before(r@[b], r@[a]));
                }
            }
        }
        r
    }

    /// The edge kind that kind `source` declares with the label `label`, if any.
    pub fn edge_type(&self, source: usize, label: &str) -> (r: Option<SchemaEdge>)
        requires
            source < self.kind_count(),
        ensures
            r.is_some() ==> r.unwrap().source == source && self.has_edge(r.unwrap()) && self.edge_label(
                source as int,
                r.unwrap().index as int,
            ) == label@,
            r.is_none() ==> forall|j: int|
                0 <= j < self.edge_count(source as int) ==> self.edge_label(source as int, j) != label@,
    {
        proof {
            use_type_invariant(self);
        }
        let row = &self.labels[source];
        match find_name(row, label) {
            Some(j) => Some(SchemaEdge { source, index: j }),
            None => None,
        }
    }

    /// The name of an edge kind: its source kind's name, `To`, and its label.
    pub fn edge_type_name(&self, e: SchemaEdge) -> (r: String)
        requires
            self.has_edge(e),
        ensures
            r@ == self.kind_name(e.source as int) + "To"@ + self.edge_label(e.source as int, e.index as int),
    {
        proof {
            use_type_invariant(self);
        }
        let mut r = self.names[e.source].clone();
        r.append("To");
        r.append(self.labels[e.source][e.index].as_str());
        r
    }

    /// The kind an edge leaves from; none for an edge from the root.
    pub fn incoming_type(&self, e: SchemaEdge) -> (r: Option<usize>)
        requires
            self.has_edge(e),
        ensures
            r == (if self.is_root(e.source as int) {
                None
            } else {
                Some(e.source)
            }),
    {
        proof {
            reveal_strlit("Root");
        }
        if same_text(self.names[e.source].as_str(), "Root") {
            None
        } else {
            Some(e.source)
        }
    }

    /// The kind an edge leads to.
    pub fn outgoing_type(&self, e: SchemaEdge) -> (r: usize)
        requires
            self.has_edge(e),
        ensures
            r == self.edge_target(e.source as int, e.index as int),
            r < self.kind_count(),
    {
        proof {
            use_type_invariant(self);
        }
        self.targets[e.source][e.index]
    }

    /// The first edge from the root that leads to kind `t`; none for the root itself,
    /// and none where the root declares no edge to `t`.
    pub fn root_edge_type(&self, t: usize) -> (r: Option<SchemaEdge>)
        requires
            t < self.kind_count(),
        ensures
            r.is_some() <==> !self.is_root(t as int) && exists|s: int, j: int|
                0 <= s < self.kind_count() && self.is_root(s) && 0 <= j < self.edge_count(s)
                    && #[trigger] self.edge_target(s, j) == t,
            r.is_some() ==> self.has_edge(r.unwrap()) && self.is_root(r.unwrap().source as int)
                && self.edge_target(r.unwrap().source as int, r.unwrap().index as int) == t,
    {
        proof {
            use_type_invariant(self);
            reveal_strlit("Root");
        }
        if same_text(self.names[t].as_str(), "Root") {
            return None;
        }
        let root = match find_name(&self.names, "Root") {
            Some(s) => s,
            None => {
                return None;
            },
        };
        proof {
            assert forall|s: int| 0 <= s < self.kind_count() && self.is_root(s) implies s == root by {
                if s != root {
                    assert(self.names@[s]@ == self.names@[root as int]@);
                    if s < root {
                        assert(self.names@[s]@ != self.names@[root as int]@);
                    } else {
                        assert(self.names@[root as int]@ != self.names@[s]@);
                    }
                }
            }
        }
        let row = &self.targets[root];
        let mut j: usize = 0;
        while j < row.len()
            invariant
                root < self.kind_count(),
                self.targets@.len() == self.kind_count(),
                row@ == self.targets@[root as int]@,
                self.is_root(root as int),
                t < self.kind_count(),
                !self.is_root(t as int),
                forall|s: int| 0 <= s < self.kind_count() && self.is_root(s) ==> s == root,
                j <= row@.len(),
                forall|k: int| 0 <= k < j ==> row@[k] != t,
            decreases row@.len() - j,
        {
            if row[j] == t {
                assert(self.edge_target(root as int, j as int) == t);
                assert(!self.is_root(t as int));
                assert(0 <= j < self.edge_count(root as int));
                return Some(SchemaEdge { source: root, index: j });
            }
            j = j + 1;
        }
        None
    }

    /// Reads a node of kind `t` from the text of its key.
    pub fn parse_node(&self, t: usize, s: &str) -> (r: Result<SchemaNode, KeyParseError>)
        requires
            t < self.kind_count(),
        ensures
            self.key_kind(t as int) == KeyKind::Unit ==> r == Ok::<SchemaNode, KeyParseError>(
                SchemaNode { kind: t, key: KeyValue::Unit },
            ),
            self.key_kind(t as int) == KeyKind::U32 ==> (r.is_ok() <==> is_u32_text(s@)),
            self.key_kind(t as int) == KeyKind::U32 && r.is_ok() ==> r.unwrap().kind == t
                && r.unwrap().key is U32 && r.unwrap().key->U32_0 as nat == decimal_value(digits_of(s@)),
            r.is_err() ==> r == Err::<SchemaNode, KeyParseError>(KeyParseError::InvalidNumber),
    {
        proof {
            use_type_invariant(self);
        }
        match self.keys[t] {
            KeyKind::Unit => Ok(SchemaNode { kind: t, key: KeyValue::Unit }),
            KeyKind::U32 => match parse_u32(s) {
                Some(v) => Ok(SchemaNode { kind: t, key: KeyValue::U32(v) }),
                None => Err(KeyParseError::InvalidNumber),
            },
        }
    }
}

impl SchemaNode {
    /// The kind of the node.
    pub fn get_type(&self) -> (r: usize)
        ensures
            r == self.kind,
    {
        self.kind
    }
}

/// `a` comes before `b`, by source kind and then by index.
pub open spec fn edge_before(a: SchemaEdge, b: SchemaEdge) -> bool {
    a.source < b.source || (a.source == b.source && a.index < b.index)
}

/// No two names are the same.
pub open spec fn distinct_names(names: Seq<String>) -> bool {
    forall|a: int, b: int| 0 <= a < b < names.len() ==> (#[trigger] names[a])@ != (#[trigger] names[b])@
}

/// The position of the first of `names` equal to `name`.
fn find_name(names: &Vec<String>, name: &str) -> (r: Option<usize>)
    ensures
        r.is_some() ==> r.unwrap() < names@.len() && names@[r.unwrap() as int]@ == name@,
        r.is_some() ==> forall|k: int| 0 <= k < r.unwrap() ==> (#[trigger] names@[k])@ != name@,
        r.is_none() ==> forall|k: int| 0 <= k < names@.len() ==> (#[trigger] names@[k])@ != name@,
{
    let mut i: usize = 0;
    while i < names.len()
        invariant
            i <= names@.len(),
            forall|k: int| 0 <= k < i ==> (#[trigger] names@[k])@ != name@,
        decreases names@.len() - i,
    {
        if same_text(names[i].as_str(), name) {
            return Some(i);
        }
        i = i + 1;
    }
    None
}

} // verus!
