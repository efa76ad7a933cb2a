//! The registry store: the mapping from service name to endpoint record.
//!
//! A [`Registry`] is the in-memory copy of the registry document. Lookups read
//! it. An IP report is staged as a complete new document, written to durable
//! storage and only then committed, so that memory changes only once the
//! write has succeeded. [`update_service_ip`] runs the three steps in one
//! call, under the exclusive borrow of the registry and with the write
//! handed in as a function; [`stage_service_ip`] and [`Registry::commit`]
//! are the first and the last step for a caller that writes by itself.

use vstd::prelude::*;
use crate::error::{RegistryError, RegistryErrorView};

verus! {

/// The endpoint of one registered service.
#[derive(Debug, PartialEq, Eq)]
pub struct ServiceInfo {
    /// The address last reported for the service, absent until a caller reports one.
    pub ip: Option<String>,
    /// The port assigned to the service when the registry was provisioned.
    pub port: u16,
}

/// The mathematical value of a [`ServiceInfo`].
pub ghost struct ServiceInfoView {
    pub ip: Option<Seq<char>>,
    pub port: u16,
}

impl View for ServiceInfo {
    type V = ServiceInfoView;

    open spec fn view(&self) -> ServiceInfoView {
        ServiceInfoView {
            ip: match self.ip {
                Some(s) => Some(s@),
                None => None,
            },
            port: self.port,
        }
    }
}

impl Clone for ServiceInfo {
    fn clone(&self) -> (copy: Self)
        ensures
            copy@ == self@,
    {
        let ip = match &self.ip {
            Some(s) => Some(s.clone()),
            None => None,
        };
        ServiceInfo { ip, port: self.port }
    }
}

/// The mathematical value of a registry: a map from service name to record.
pub type RegistryView = Map<Seq<char>, ServiceInfoView>;

/// The registry after `name` has reported the address `ip`: the record of a
/// registered name gets the new address and keeps its port; a name that is
/// not registered changes nothing.
pub open spec fn report_ip(m: RegistryView, name: Seq<char>, ip: Seq<char>) -> RegistryView {
    if m.contains_key(name) {
        m.insert(name, ServiceInfoView { ip: Some(ip), port: m[name].port })
    } else {
        m
    }
}

/// The registry that a document denotes: its records in order, a later record
/// replacing an earlier one of the same name.
pub open spec fn document_map(doc: Seq<(String, ServiceInfo)>) -> RegistryView
    decreases doc.len(),
{
    if doc.len() == 0 {
        Map::empty()
    } else {
        document_map(doc.drop_last()).insert(doc.last().0@, doc.last().1@)
    }
}

/// Whether no two records of a document share a name.
pub open spec fn document_names_distinct(doc: Seq<(String, ServiceInfo)>) -> bool {
    forall|i: int, j: int| 0 <= i < j < doc.len() ==> doc[i].0@ != doc[j].0@
}

/// The registry after a sequence of reports, each a name and the address
/// reported for it, applied in order.
pub open spec fn report_all(m: RegistryView, reports: Seq<(Seq<char>, Seq<char>)>) -> RegistryView
    decreases reports.len(),
{
    if reports.len() == 0 {
        m
    } else {
        report_ip(report_all(m, reports.drop_last()), reports.last().0, reports.last().1)
    }
}

/// No sequence of reports registers or removes a name, and none changes a
/// port: a registered name resolves to the port it was provisioned with
/// whatever has been reported since.
pub proof fn lemma_reports_keep_names_and_ports(
    m: RegistryView,
    reports: Seq<(Seq<char>, Seq<char>)>,
)
    ensures
        report_all(m, reports).dom() == m.dom(),
        forall|n: Seq<char>| m.contains_key(n) ==> #[trigger] report_all(m, reports)[n].port == m[n].port,
    decreases reports.len(),
{
    if reports.len() > 0 {
        let before = report_all(m, reports.drop_last());
        lemma_reports_keep_names_and_ports(m, reports.drop_last());
        assert(report_all(m, reports).dom() =~= before.dom());
        assert forall|n: Seq<char>| m.contains_key(n) implies #[trigger] report_all(
            m,
            reports,
        )[n].port == m[n].port by {
            assert(before.contains_key(n));
            assert(before[n].port == m[n].port);
        }
    }
}

/// A report for a name that is not registered leaves the registry as it is,
/// and the name stays unregistered.
pub proof fn lemma_unregistered_report_changes_nothing(
    m: RegistryView,
    name: Seq<char>,
    ip: Seq<char>,
)
    requires
        !m.contains_key(name),
    ensures
        report_ip(m, name, ip) == m,
        !report_ip(m, name, ip).contains_key(name),
{
}

/// Of two reports for the same registered name the later one stands: the
/// registry is what the later report alone would have made of it, and the
/// name resolves to the later address.
pub proof fn lemma_last_report_wins(
    m: RegistryView,
    name: Seq<char>,
    first: Seq<char>,
    second: Seq<char>,
)
    requires
        m.contains_key(name),
    ensures
        report_ip(report_ip(m, name, first), name, second) == report_ip(m, name, second),
        report_ip(report_ip(m, name, first), name, second)[name].ip == Some(second),
{
    assert(report_ip(report_ip(m, name, first), name, second) =~= report_ip(m, name, second));
}

/// Reports for two different registered names do not disturb each other:
/// in whichever order they are applied the registry ends up the same, and
/// each name holds the address reported for it.
pub proof fn lemma_reports_of_distinct_names_commute(
    m: RegistryView,
    name1: Seq<char>,
    ip1: Seq<char>,
    name2: Seq<char>,
    ip2: Seq<char>,
)
    requires
        m.contains_key(name1),
        m.contains_key(name2),
        name1 != name2,
    ensures
        report_ip(report_ip(m, name1, ip1), name2, ip2) == report_ip(
            report_ip(m, name2, ip2),
            name1,
            ip1,
        ),
        report_ip(report_ip(m, name1, ip1), name2, ip2)[name1].ip == Some(ip1),
        report_ip(report_ip(m, name1, ip1), name2, ip2)[name2].ip == Some(ip2),
{
    assert(report_ip(report_ip(m, name1, ip1), name2, ip2) =~= report_ip(
        report_ip(m, name2, ip2),
        name1,
        ip1,
    ));
}

/// A report outlives a restart: when the document written for the report
/// is loaded again, the name resolves to the reported address and to the
/// port it had before.
pub proof fn lemma_reload_keeps_report(
    m: RegistryView,
    name: Seq<char>,
    ip: Seq<char>,
    written: Seq<(String, ServiceInfo)>,
)
    requires
        m.contains_key(name),
        document_map(written) == report_ip(m, name, ip),
    ensures
        document_map(written).contains_key(name),
        document_map(written)[name] == (ServiceInfoView { ip: Some(ip), port: m[name].port }),
        document_map(written).dom() == m.dom(),
{
    assert(report_ip(m, name, ip).dom() =~= m.dom());
}

struct Entry {
    name: String,
    info: ServiceInfo,
}

spec fn names_distinct(es: Seq<Entry>) -> bool {
    forall|i: int, j: int| 0 <= i < j < es.len() ==> es[i].name@ != es[j].name@
}

spec fn holds_name(es: Seq<Entry>, n: Seq<char>) -> bool {
    exists|i: int| 0 <= i < es.len() && (#[trigger] es[i]).name@ == n
}

spec fn index_of(es: Seq<Entry>, n: Seq<char>) -> int {
    choose|i: int| 0 <= i < es.len() && (#[trigger] es[i]).name@ == n
}

spec fn table(es: Seq<Entry>) -> RegistryView {
    Map::new(|n: Seq<char>| holds_name(es, n), |n: Seq<char>| es[index_of(es, n)].info@)
}

proof fn lemma_table_at(es: Seq<Entry>, i: int)
    requires
        names_distinct(es),
        0 <= i < es.len(),
    ensures
        table(es).contains_key(es[i].name@),
        table(es)[es[i].name@] == es[i].info@,
{
    let n = es[i].name@;
    assert(holds_name(es, n));
    let k = index_of(es, n);
    assert(k == i) by {
        if k < i {
            assert(es[k].name@ != es[i].name@);
        } else if i < k {
            assert(es[i].name@ != es[k].name@);
        }
    }
}

proof fn lemma_table_replace(es: Seq<Entry>, i: int, e: Entry)
    requires
        names_distinct(es),
        0 <= i < es.len(),
        e.name@ == es[i].name@,
    ensures
        names_distinct(es.update(i, e)),
        table(es.update(i, e)) =~= table(es).insert(e.name@, e.info@),
{
    let es2 = es.update(i, e);
    assert(names_distinct(es2)) by {
        assert forall|a: int, b: int| 0 <= a < b < es2.len() implies es2[a].name@
            != es2[b].name@ by {
            assert(es[a].name@ != es[b].name@);
        }
    }
    assert forall|n: Seq<char>| holds_name(es2, n) <==> holds_name(es, n) by {
        if holds_name(es2, n) {
            let k = index_of(es2, n);
            assert(es[k].name@ == n);
        }
        if holds_name(es, n) {
            let k = index_of(es, n);
            assert(es2[k].name@ == n);
        }
    }
    assert forall|n: Seq<char>| holds_name(es2, n) implies #[trigger] table(es2)[n] == table(
        es,
    ).insert(e.name@, e.info@)[n] by {
        let k = index_of(es2, n);
        lemma_table_at(es2, k);
        if k != i {
            lemma_table_at(es, k);
        }
    }
}

proof fn lemma_table_push(es: Seq<Entry>, e: Entry)
    requires
        names_distinct(es),
        !holds_name(es, e.name@),
    ensures
        names_distinct(es.push(e)),
        table(es.push(e)) =~= table(es).insert(e.name@, e.info@),
{
    let es2 = es.push(e);
    assert(names_distinct(es2)) by {
        assert forall|a: int, b: int| 0 <= a < b < es2.len() implies es2[a].name@
            != es2[b].name@ by {
            if b == es.len() {
                assert(es[a].name@ != e.name@);
            } else {
                assert(es[a].name@ != es[b].name@);
            }
        }
    }
    assert forall|n: Seq<char>| holds_name(es2, n) <==> (holds_name(es, n) || n == e.name@) by {
        if holds_name(es2, n) {
            let k = index_of(es2, n);
            if k < es.len() {
                assert(es[k].name@ == n);
            }
        }
        if holds_name(es, n) {
            let k = index_of(es, n);
            assert(es2[k].name@ == n);
        }
        if n == e.name@ {
            assert(es2[es.len() as int].name@ == n);
        }
    }
    assert forall|n: Seq<char>| holds_name(es2, n) implies #[trigger] table(es2)[n] == table(
        es,
    ).insert(e.name@, e.info@)[n] by {
        let k = index_of(es2, n);
        lemma_table_at(es2, k);
        if k < es.len() {
            lemma_table_at(es, k);
        }
    }
}

proof fn lemma_table_same(a: Seq<Entry>, b: Seq<Entry>)
    requires
        names_distinct(a),
        a.len() == b.len(),
        forall|i: int| 0 <= i < a.len() ==> a[i].name@ == b[i].name@ && a[i].info@ == b[i].info@,
    ensures
        names_distinct(b),
        table(b) =~= table(a),
{
    assert(names_distinct(b)) by {
        assert forall|i: int, j: int| 0 <= i < j < b.len() implies b[i].name@ != b[j].name@ by {
            assert(a[i].name@ != a[j].name@);
        }
    }
    assert forall|n: Seq<char>| holds_name(b, n) <==> holds_name(a, n) by {
        if holds_name(b, n) {
            let k = index_of(b, n);
            assert(a[k].name@ == n);
        }
        if holds_name(a, n) {
            let k = index_of(a, n);
            assert(b[k].name@ == n);
        }
    }
    assert forall|n: Seq<char>| holds_name(b, n) implies #[trigger] table(b)[n] == table(a)[n] by {
        let k = index_of(b, n);
        lemma_table_at(b, k);
        lemma_table_at(a, k);
    }
}

proof fn lemma_table_empty(es: Seq<Entry>)
    requires
        es.len() == 0,
    ensures
        table(es) =~= Map::<Seq<char>, ServiceInfoView>::empty(),
{
    assert forall|n: Seq<char>| !holds_name(es, n) by {}
}

proof fn lemma_table_size(es: Seq<Entry>)
    requires
        names_distinct(es),
    ensures
        table(es).dom().finite(),
        table(es).dom().len() == es.len(),
    decreases es.len(),
{
    if es.len() == 0 {
        lemma_table_empty(es);
    } else {
        let front = es.drop_last();
        let last = es.last();
        lemma_table_size(front);
        assert(!holds_name(front, last.name@)) by {
            if holds_name(front, last.name@) {
                let k = index_of(front, last.name@);
                assert(es[k].name@ != es[es.len() - 1].name@);
            }
        }
        lemma_table_push(front, last);
        assert(front.push(last) =~= es);
        assert(table(es).dom() =~= table(front).dom().insert(last.name@));
    }
}

proof fn lemma_document_table(doc: Seq<(String, ServiceInfo)>, es: Seq<Entry>)
    requires
        names_distinct(es),
        doc.len() == es.len(),
        forall|i: int| 0 <= i < es.len() ==> doc[i].0@ == es[i].name@ && doc[i].1@ == es[i].info@,
    ensures
        document_names_distinct(doc),
        document_map(doc) =~= table(es),
    decreases doc.len(),
{
    assert(document_names_distinct(doc)) by {
        assert forall|i: int, j: int| 0 <= i < j < doc.len() implies doc[i].0@ != doc[j].0@ by {
            assert(es[i].name@ != es[j].name@);
        }
    }
    if doc.len() == 0 {
        lemma_table_empty(es);
    } else {
        let front = es.drop_last();
        let last = es.last();
        lemma_document_table(doc.drop_last(), front);
        assert(!holds_name(front, last.name@)) by {
            if holds_name(front, last.name@) {
                let k = index_of(front, last.name@);
                assert(es[k].name@ != es[es.len() - 1].name@);
            }
        }
        lemma_table_push(front, last);
        assert(front.push(last) =~= es);
    }
}

fn same_text(a: &String, b: &str) -> (same: bool)
    ensures
        same == (a@ == b@),
{
    let other = b.to_owned();
    *a == other
}

fn position(entries: &Vec<Entry>, name: &str) -> (found: Option<usize>)
    ensures
        found matches Some(i) ==> i < entries@.len() && entries@[i as int].name@ == name@,
        found is None ==> !holds_name(entries@, name@),
{
    let mut i: usize = 0;
    while i < entries.len()
        invariant
            i <= entries@.len(),
            forall|k: int| 0 <= k < i ==> entries@[k].name@ != name@,
        decreases entries@.len() - i,
    {
        if same_text(&entries[i].name, name) {
            return Some(i);
        }
        i = i + 1;
    }
    None
}

fn put(entries: &mut Vec<Entry>, name: String, info: ServiceInfo)
    requires
        names_distinct(old(entries)@),
    ensures
        names_distinct(final(entries)@),
        table(final(entries)@) == table(old(entries)@).insert(name@, info@),
        !holds_name(old(entries)@, name@) ==> final(entries)@.len() == old(entries)@.len() + 1
            && final(entries)@.last().name@ == name@ && final(entries)@.drop_last() == old(
            entries,
        )@,
{
    match position(entries, name.as_str()) {
        Some(i) => {
            proof {
                lemma_table_replace(entries@, i as int, Entry { name, info });
            }
            entries.set(i, Entry { name, info });
        },
        None => {
            proof {
                lemma_table_push(entries@, Entry { name, info });
            }
            entries.push(Entry { name, info });
            assert(entries@.drop_last() =~= old(entries)@);
        },
    }
}

fn copy_entries(entries: &Vec<Entry>) -> (copy: Vec<Entry>)
    ensures
        copy@.len() == entries@.len(),
        forall|i: int|
            0 <= i < entries@.len() ==> copy@[i].name@ == entries@[i].name@ && copy@[i].info@
                == entries@[i].info@,
{
    let mut copy: Vec<Entry> = Vec::new();
    let mut i: usize = 0;
    while i < entries.len()
        invariant
            i <= entries@.len(),
            copy@.len() == i,
            forall|k: int|
                0 <= k < i ==> copy@[k].name@ == entries@[k].name@ && copy@[k].info@
                    == entries@[k].info@,
        decreases entries@.len() - i,
    {
        copy.push(Entry { name: entries[i].name.clone(), info: entries[i].info.clone() });
        i = i + 1;
    }
    copy
}

/// The registry: every registered service name with its endpoint record.
/// No two records share a name.
pub struct Registry {
    entries: Vec<Entry>,
}

impl View for Registry {
    type V = RegistryView;

    closed spec fn view(&self) -> RegistryView {
        table(self.entries@)
    }
}

impl Registry {
    #[verifier::type_invariant]
    spec fn well_formed(self) -> bool {
        names_distinct(self.entries@)
    }

    /// A registry without records.
    pub fn new() -> (registry: Registry)
        ensures
            registry@ == Map::<Seq<char>, ServiceInfoView>::empty(),
    {
        let registry = Registry { entries: Vec::new() };
        assert(registry@ =~= Map::<Seq<char>, ServiceInfoView>::empty()) by {
            lemma_table_empty(registry.entries@);
        }
        registry
    }

    /// Whether `name` is registered.
    pub fn contains(&self, name: &str) -> (present: bool)
        ensures
            present == self@.contains_key(name@),
    {
        proof {
            use_type_invariant(self);
        }
        match position(&self.entries, name) {
            Some(i) => {
                proof {
                    lemma_table_at(self.entries@, i as int);
                }
                true
            },
            None => false,
        }
    }

    /// The number of registered names.
    pub fn len(&self) -> (n: usize)
        ensures
            self@.dom().finite(),
            n == self@.len(),
    {
        proof {
            use_type_invariant(self);
            lemma_table_size(self.entries@);
        }
        self.entries.len()
    }

    /// Builds the registry that a loaded document denotes. Where the document
    /// holds a name more than once, the last record of that name stands.
    pub fn from_entries(doc: &Vec<(String, ServiceInfo)>) -> (registry: Registry)
        ensures
            registry@ == document_map(doc@),
            registry@.dom().finite(),
            document_names_distinct(doc@) ==> registry@.len() == doc@.len(),
    {
        let mut entries: Vec<Entry> = Vec::new();
        let mut i: usize = 0;
        proof {
            lemma_table_empty(entries@);
            assert(doc@.take(0) =~= Seq::<(String, ServiceInfo)>::empty());
        }
        while i < doc.len()
            invariant
                i <= doc@.len(),
                names_distinct(entries@),
                table(entries@) == document_map(doc@.take(i as int)),
                document_names_distinct(doc@) ==> entries@.len() == i && forall|k: int|
                    0 <= k < i ==> (#[trigger] entries@[k]).name@ == doc@[k].0@,
            decreases doc@.len() - i,
        {
            let name = doc[i].0.clone();
            let info = doc[i].1.clone();
            proof {
                let next = doc@.take(i + 1);
                assert(next.drop_last() =~= doc@.take(i as int));
                assert(next.last() == doc@[i as int]);
                if document_names_distinct(doc@) {
                    assert(!holds_name(entries@, name@)) by {
                        if holds_name(entries@, name@) {
                            let k = index_of(entries@, name@);
                            assert(doc@[k].0@ != doc@[i as int].0@);
                        }
                    }
                }
            }
            let ghost before = entries@;
            put(&mut entries, name, info);
            proof {
                if document_names_distinct(doc@) {
                    assert forall|k: int| 0 <= k <= i implies (#[trigger] entries@[k]).name@
                        == doc@[k].0@ by {
                        if k < i {
                            assert(entries@[k] == entries@.drop_last()[k]);
                            assert(before[k].name@ == doc@[k].0@);
                        }
                    }
                }
            }
            i = i + 1;
        }
        proof {
            assert(doc@.take(doc@.len() as int) =~= doc@);
            lemma_table_size(entries@);
        }
        Registry { entries }
    }

    /// The registry as a document: one record for each registered name, in
    /// which no name occurs twice.
    pub fn entries(&self) -> (doc: Vec<(String, ServiceInfo)>)
        ensures
            document_map(doc@) == self@,
            document_names_distinct(doc@),
            self@.dom().finite(),
            doc@.len() == self@.len(),
    {
        let mut doc: Vec<(String, ServiceInfo)> = Vec::new();
        let mut i: usize = 0;
        while i < self.entries.len()
            invariant
                i <= self.entries@.len(),
                doc@.len() == i,
                forall|k: int|
                    0 <= k < i ==> doc@[k].0@ == self.entries@[k].name@ && doc@[k].1@
                        == self.entries@[k].info@,
            decreases self.entries@.len() - i,
        {
            doc.push((self.entries[i].name.clone(), self.entries[i].info.clone()));
            i = i + 1;
        }
        proof {
            use_type_invariant(self);
            lemma_document_table(doc@, self.entries@);
            lemma_table_size(self.entries@);
        }
        doc
    }

    /// Ends an update whose document the caller has tried to write to durable
    /// storage. If the write succeeded the staged registry becomes the
    /// current one; if it failed the registry stays exactly as it was and the
    /// failure is reported as a `Persistence` error with the write's message.
    pub fn commit(&mut self, staged: StagedUpdate, written: Result<(), String>) -> (done: Result<
        (),
        RegistryError,
    >)
        ensures
            written is Ok ==> done is Ok && final(self)@ == staged@,
            written matches Err(detail) ==> *final(self) == *old(self) && (done matches Err(e)
                && e@ == RegistryErrorView::Persistence(detail@)),
    {
        match written {
            Ok(_) => {
                *self = staged.next;
                Ok(())
            },
            Err(detail) => Err(RegistryError::Persistence(detail)),
        }
    }
}

impl Clone for Registry {
    fn clone(&self) -> (copy: Self)
        ensures
            copy@ == self@,
    {
        let entries = copy_entries(&self.entries);
        proof {
            use_type_invariant(self);
            lemma_table_same(self.entries@, entries@);
        }
        Registry { entries }
    }
}

/// A complete registry that is waiting to be written to durable storage.
/// It takes effect only through [`Registry::commit`].
pub struct StagedUpdate {
    next: Registry,
    port: u16,
}

impl View for StagedUpdate {
    type V = RegistryView;

    closed spec fn view(&self) -> RegistryView {
        self.next@
    }
}

impl StagedUpdate {
    /// The port of the service whose address the update reports.
    pub closed spec fn spec_port(&self) -> u16 {
        self.port
    }

    /// The port of the service whose address the update reports.
    pub fn port(&self) -> (port: u16)
        ensures
            port == self.spec_port(),
    {
        self.port
    }

    /// The document to write: the registry as it will stand after the commit.
    pub fn document(&self) -> (doc: Vec<(String, ServiceInfo)>)
        ensures
            document_map(doc@) == self@,
            document_names_distinct(doc@),
    {
        self.next.entries()
    }
}

/// Looks up the record of `service_name`. Fails with `NotFound`, carrying
/// the name, exactly when the name is not registered.
pub fn resolve_service_info(registry: &Registry, service_name: &str) -> (found: Result<
    ServiceInfo,
    RegistryError,
>)
    ensures
        found matches Ok(info) ==> registry@.contains_key(service_name@) && info@
            == registry@[service_name@],
        found matches Err(e) ==> !registry@.contains_key(service_name@) && e@
            == RegistryErrorView::NotFound(service_name@),
{
    proof {
        use_type_invariant(registry);
    }
    match position(&registry.entries, service_name) {
        Some(i) => {
            proof {
                lemma_table_at(registry.entries@, i as int);
            }
            Ok(registry.entries[i].info.clone())
        },
        None => Err(RegistryError::NotFound(service_name.to_owned())),
    }
}

/// Stages the report that `service_name` is now reachable at `new_ip`: the
/// result is the whole registry with that one address replaced, every port
/// and every other record as before. The registry itself is not changed;
/// the caller writes the staged document and then calls
/// [`Registry::commit`]. Fails with `NotFound`, staging nothing, exactly
/// when the name is not registered.
pub fn stage_service_ip(registry: &Registry, service_name: &str, new_ip: &str) -> (staged: Result<
    StagedUpdate,
    RegistryError,
>)
    ensures
        staged matches Ok(update) ==> registry@.contains_key(service_name@) && update@
            == report_ip(registry@, service_name@, new_ip@) && update.spec_port()
            == registry@[service_name@].port,
        staged matches Err(e) ==> !registry@.contains_key(service_name@) && e@
            == RegistryErrorView::NotFound(service_name@),
{
    proof {
        use_type_invariant(registry);
    }
    match position(&registry.entries, service_name) {
        Some(i) => {
            let mut entries = copy_entries(&registry.entries);
            let name = service_name.to_owned();
            let port = registry.entries[i].info.port;
            let info = ServiceInfo { ip: Some(new_ip.to_owned()), port };
            proof {
                lemma_table_same(registry.entries@, entries@);
                lemma_table_at(registry.entries@, i as int);
                lemma_table_replace(entries@, i as int, Entry { name, info });
            }
            entries.set(i, Entry { name, info });
            Ok(StagedUpdate { next: Registry { entries }, port })
        },
        None => Err(RegistryError::NotFound(service_name.to_owned())),
    }
}

/// How an update ends once its document has been handed to the writer:
/// after a successful write the registry is the staged one; after a failed
/// write it is untouched and the failure is a `Persistence` error with the
/// writer's message.
pub open spec fn update_settled(
    before: Registry,
    after: Registry,
    staged: RegistryView,
    written: Result<(), String>,
    done: Result<(), RegistryError>,
) -> bool {
    match written {
        Ok(_) => done is Ok && after@ == staged,
        Err(detail) => after == before && (done matches Err(e) && e@
            == RegistryErrorView::Persistence(detail@)),
    }
}

/// Records that `service_name` is now reachable at `new_ip`, as one
/// indivisible read-modify-write: the record is looked up, the whole
/// registry with the new address is handed to `write` as a document, and
/// the change is committed if and only if `write` succeeds.
///
/// For a name that is not registered the result is `NotFound` and the
/// registry is untouched. For a registered name, `write` is called once,
/// on a document that denotes the updated registry and holds no name
/// twice, and the update ends as [`update_settled`] says.
pub fn update_service_ip<F>(
    registry: &mut Registry,
    service_name: &str,
    new_ip: &str,
    write: F,
) -> (done: Result<(), RegistryError>) where F: FnOnce(Vec<(String, ServiceInfo)>) -> Result<(), String>
    requires
        forall|doc: Vec<(String, ServiceInfo)>| write.requires((doc,)),
    ensures
        !old(registry)@.contains_key(service_name@) ==> *final(registry) == *old(registry) && (
        done matches Err(e) && e@ == RegistryErrorView::NotFound(service_name@)),
        old(registry)@.contains_key(service_name@) ==> exists|
            doc: Vec<(String, ServiceInfo)>,
            written: Result<(), String>,
        |
            #[trigger] write.ensures((doc,), written) && document_names_distinct(doc@)
                && document_map(doc@) == report_ip(old(registry)@, service_name@, new_ip@)
                && update_settled(
                *old(registry),
                *final(registry),
                report_ip(old(registry)@, service_name@, new_ip@),
                written,
                done,
            ),
{
    match stage_service_ip(registry, service_name, new_ip) {
        Err(missing) => Err(missing),
        Ok(update) => {
            let doc = update.document();
            let ghost handed = doc;
            let written = write(doc);
            let ghost outcome = written;
            let done = registry.commit(update, written);
            assert(write.ensures((handed,), outcome));
            done
        },
    }
}

} // verus!
