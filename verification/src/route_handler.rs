//! The document catalog and its builder: pairs the configured documents,
//! positionally, with the registrations that loading their scripts
//! produced, runs the result into an immutable name-to-function catalog,
//! one route per routable document, and the list of init hooks to call
//! before serving begins.

use vstd::prelude::*;
use vstd::string::StringExecFns;

use crate::pyinterface::FunctionHandle;
use crate::pyinterface::EventLoopHandle;
use crate::pyinterface::PyRegisterDecorator;
use crate::reader::HydratedConfig;
use crate::str_eq;

verus! {

/// One catalog entry: a document name bound to its routable function.
pub struct DataDocument {
    name: String,
    function: FunctionHandle,
}

impl DataDocument {
    pub closed spec fn spec_name(&self) -> Seq<char> {
        self.name@
    }

    pub closed spec fn spec_function(&self) -> FunctionHandle {
        self.function
    }

    pub fn new(name: String, function: FunctionHandle) -> (r: Self)
        ensures
            r.spec_name() == name@,
            r.spec_function() == function,
    {
        DataDocument { name, function }
    }

    pub fn get_name(&self) -> (r: &str)
        ensures
            r@ == self.spec_name(),
    {
        self.name.as_str()
    }

    pub fn get_function(&self) -> (r: FunctionHandle)
        ensures
            r == self.spec_function(),
    {
        self.function
    }
}

/// The frozen, shared state of the serving phase: the configuration, the
/// catalog, and the event-loop handle when `safe_async` asked for one.
/// Built exactly once; every request reads it, nothing mutates it.
pub struct GlobalCollection {
    documents: Vec<DataDocument>,
    config: HydratedConfig,
    event_loop: Option<EventLoopHandle>,
}

impl GlobalCollection {
    pub closed spec fn spec_docs(&self) -> Seq<DataDocument> {
        self.documents@
    }

    pub closed spec fn spec_config(&self) -> HydratedConfig {
        self.config
    }

    pub closed spec fn spec_event_loop(&self) -> Option<EventLoopHandle> {
        self.event_loop
    }

    pub open spec fn spec_has_document(&self, name: Seq<char>) -> bool {
        exists|i: int|
            0 <= i < self.spec_docs().len() && (#[trigger] self.spec_docs()[i]).spec_name() == name
    }

    /// Well-formedness: catalog names are unique.
    pub open spec fn wf(&self) -> bool {
        forall|i: int, j: int|
            0 <= i < j < self.spec_docs().len() ==> (#[trigger] self.spec_docs()[i]).spec_name()
                != (#[trigger] self.spec_docs()[j]).spec_name()
    }

    pub fn new(config: HydratedConfig, event_loop: Option<EventLoopHandle>) -> (r: Self)
        ensures
            r.spec_docs() == Seq::<DataDocument>::empty(),
            r.spec_config() == config,
            r.spec_event_loop() == event_loop,
    {
        GlobalCollection { documents: Vec::new(), config, event_loop }
    }

    pub fn get_config(&self) -> (r: &HydratedConfig)
        ensures
            *r == self.spec_config(),
    {
        &self.config
    }

    /// Whether the catalog holds a document of this name.
    pub fn has_document(&self, name: &str) -> (r: bool)
        ensures
            r == self.spec_has_document(name@),
    {
        let mut i: usize = 0;
        while i < self.documents.len()
            invariant
                i <= self.spec_docs().len(),
                forall|k: int|
                    0 <= k < i ==> (#[trigger] self.spec_docs()[k]).spec_name() != name@,
            decreases self.spec_docs().len() - i,
        {
            if str_eq(self.documents[i].name.as_str(), name) {
                return true;
            }
            i = i + 1;
        }
        false
    }

    /// Looks a document up by name. Absence would be a violation of the
    /// startup invariant, so the name must be present.
    pub fn get_document(&self, name: &str) -> (r: &DataDocument)
        requires
            self.spec_has_document(name@),
        ensures
            r.spec_name() == name@,
            self.spec_docs().contains(*r),
    {
        let mut i: usize = 0;
        while i < self.documents.len()
            invariant
                i <= self.spec_docs().len(),
                self.spec_has_document(name@),
                forall|k: int|
                    0 <= k < i ==> (#[trigger] self.spec_docs()[k]).spec_name() != name@,
            decreases self.spec_docs().len() - i,
        {
            if str_eq(self.documents[i].name.as_str(), name) {
                return &self.documents[i];
            }
            i = i + 1;
        }
        proof {
            assert(false);
        }
        &self.documents[0]
    }

    /// Binds a document under its name: a fresh name is appended; an
    /// existing one has its entry replaced.
    pub fn insert_document(&mut self, doc: DataDocument)
        ensures
            final(self).spec_config() == old(self).spec_config(),
            final(self).spec_event_loop() == old(self).spec_event_loop(),
            final(self).spec_has_document(doc.spec_name()),
            !old(self).spec_has_document(doc.spec_name()) ==> final(self).spec_docs() == old(
                self,
            ).spec_docs().push(doc),
            forall|n: Seq<char>|
                n != doc.spec_name() ==> (final(self).spec_has_document(n) <==> old(
                    self,
                ).spec_has_document(n)),
            forall|d: DataDocument|
                d.spec_name() != doc.spec_name() ==> (final(self).spec_docs().contains(d) <==> old(
                    self,
                ).spec_docs().contains(d)),
    {
        let ghost docs0 = self.documents@;
        let mut i: usize = 0;
        while i < self.documents.len()
            invariant
                i <= docs0.len(),
                docs0 == self.documents@,
                docs0 == old(self).spec_docs(),
                self.spec_config() == old(self).spec_config(),
                self.spec_event_loop() == old(self).spec_event_loop(),
                forall|k: int| 0 <= k < i ==> (#[trigger] docs0[k]).spec_name() != doc.spec_name(),
            decreases docs0.len() - i,
        {
            if str_eq(self.documents[i].name.as_str(), doc.name.as_str()) {
                self.documents[i] = doc;
                proof {
                    assert(self.documents@ == docs0.update(i as int, doc));
                    assert(self.spec_docs()[i as int] == doc);
                    assert(self.spec_has_document(doc.spec_name()));
                    assert(old(self).spec_docs()[i as int].spec_name() == doc.spec_name());
                    assert(old(self).spec_has_document(doc.spec_name()));
                    assert forall|d: DataDocument|
                        d.spec_name() != doc.spec_name() implies (self.spec_docs().contains(d)
                        <==> docs0.contains(d)) by {
                        if self.spec_docs().contains(d) {
                            let k = choose|k: int|
                                0 <= k < self.spec_docs().len() && self.spec_docs()[k] == d;
                            assert(k != i ==> docs0[k] == d);
                        }
                        if docs0.contains(d) {
                            let k = choose|k: int| 0 <= k < docs0.len() && docs0[k] == d;
                            assert(docs0[i as int].spec_name() == doc.spec_name());
                            assert(k != i);
                            assert(self.spec_docs()[k] == d);
                        }
                    }
                    assert forall|n: Seq<char>|
                        n != doc.spec_name() implies (self.spec_has_document(n) <==> (exists|k: int|
                        0 <= k < docs0.len() && (#[trigger] docs0[k]).spec_name() == n)) by {
                        if self.spec_has_document(n) {
                            let k = choose|k: int|
                                0 <= k < self.spec_docs().len() && (#[trigger] self.spec_docs()[k]).spec_name()
                                    == n;
                            assert(k != i);
                            assert(docs0[k].spec_name() == n);
                        }
                        if exists|k: int| 0 <= k < docs0.len() && (#[trigger] docs0[k]).spec_name()
                            == n {
                            let k = choose|k: int|
                                0 <= k < docs0.len() && (#[trigger] docs0[k]).spec_name() == n;
                            assert(docs0[i as int].spec_name() == doc.spec_name());
                            assert(k != i);
                            assert(self.spec_docs()[k].spec_name() == n);
                        }
                    }
                }
                return ;
            }
            i = i + 1;
        }
        self.documents.push(doc);
        proof {
            assert(self.spec_docs()[docs0.len() as int] == doc);
            assert forall|d: DataDocument|
                d.spec_name() != doc.spec_name() implies (self.spec_docs().contains(d)
                <==> docs0.contains(d)) by {
                if self.spec_docs().contains(d) {
                    let k = choose|k: int|
                        0 <= k < self.spec_docs().len() && self.spec_docs()[k] == d;
                    assert(k < docs0.len() ==> docs0[k] == d);
                }
                if docs0.contains(d) {
                    let k = choose|k: int| 0 <= k < docs0.len() && docs0[k] == d;
                    assert(self.spec_docs()[k] == d);
                }
            }
            assert forall|n: Seq<char>|
                n != doc.spec_name() implies (self.spec_has_document(n) <==> (exists|k: int|
                0 <= k < docs0.len() && (#[trigger] docs0[k]).spec_name() == n)) by {
                if self.spec_has_document(n) {
                    let k = choose|k: int|
                        0 <= k < self.spec_docs().len() && (#[trigger] self.spec_docs()[k]).spec_name()
                            == n;
                    assert(k < docs0.len());
                    assert(docs0[k].spec_name() == n);
                }
                if exists|k: int| 0 <= k < docs0.len() && (#[trigger] docs0[k]).spec_name() == n {
                    let k = choose|k: int|
                        0 <= k < docs0.len() && (#[trigger] docs0[k]).spec_name() == n;
                    assert(self.spec_docs()[k].spec_name() == n);
                }
            }
        }
    }
}

/// The fixed greeting of the root route, unrelated to the registry.
pub fn index() -> (r: String)
    ensures
        r@ == "Hello World"@,
{
    "Hello World".to_owned()
}

/// One synthesized route: a GET path with a trailing placeholder, bound to
/// the document it serves. The placeholder only satisfies the routing
/// layer's matching rules; the handler reads the real query string.
pub struct RoutePlan {
    pub path: String,
    pub document_name: String,
}

pub open spec fn spec_route_path(name: Seq<char>) -> Seq<char> {
    "/"@ + name + "/<query>"@
}

/// Builds the route for one document.
pub fn create_route(document: &str) -> (r: RoutePlan)
    ensures
        r.path@ == spec_route_path(document@),
        r.document_name@ == document@,
{
    let path = "/".to_owned().concat(document).concat("/<query>");
    proof {
        assert(path@ =~= spec_route_path(document@));
    }
    RoutePlan { path, document_name: document.to_owned() }
}

/// Raised when the registry snapshot does not pair up with the configured
/// documents.
#[derive(Debug)]
pub struct RegistrationMismatchError;

/// Everything startup hands to the serving layer: the frozen collection,
/// the synthesized routes, and the init hooks still to be called, in
/// order, before serving begins.
pub struct CatalogPlan {
    pub collection: GlobalCollection,
    pub routes: Vec<RoutePlan>,
    pub init_calls: Vec<FunctionHandle>,
}

pub open spec fn spec_is_init(mode: Seq<char>) -> bool {
    mode == "init"@
}

/// The documents that get catalog entries and routes: each non-init
/// document, in document order, paired with its positional registration.
pub open spec fn spec_routed_pairs(
    docs: Seq<(String, String)>,
    regs: Seq<PyRegisterDecorator>,
    i: int,
) -> Seq<(Seq<char>, FunctionHandle)>
    decreases docs.len() - i,
{
    if i < 0 || i >= docs.len() || i >= regs.len() {
        Seq::empty()
    } else if spec_is_init(regs[i].spec_mode()) {
        spec_routed_pairs(docs, regs, i + 1)
    } else {
        seq![(docs[i].0@, regs[i].spec_wraps())] + spec_routed_pairs(docs, regs, i + 1)
    }
}

/// The functions of init-mode registrations, in registration order.
pub open spec fn spec_init_handles(regs: Seq<PyRegisterDecorator>, i: int) -> Seq<FunctionHandle>
    decreases regs.len() - i,
{
    if i < 0 || i >= regs.len() {
        Seq::empty()
    } else if spec_is_init(regs[i].spec_mode()) {
        seq![regs[i].spec_wraps()] + spec_init_handles(regs, i + 1)
    } else {
        spec_init_handles(regs, i + 1)
    }
}

pub open spec fn spec_doc_pair(d: DataDocument) -> (Seq<char>, FunctionHandle) {
    (d.spec_name(), d.spec_function())
}

pub open spec fn spec_pairs_of(docs: Seq<DataDocument>) -> Seq<(Seq<char>, FunctionHandle)> {
    docs.map_values(|d: DataDocument| spec_doc_pair(d))
}

/// Builds the catalog from the configuration and the frozen registry
/// snapshot. The snapshot must pair with the documents positionally: any
/// count mismatch is rejected outright rather than misaligning. Each
/// init-mode registration is returned as an init call and gets neither a
/// catalog entry nor a route; every other registration gets exactly one of
/// each, in document order.
pub fn initiate(
    config: HydratedConfig,
    event_loop: Option<EventLoopHandle>,
    registrations: Vec<PyRegisterDecorator>,
) -> (r: Result<CatalogPlan, RegistrationMismatchError>)
    requires
        config.wf(),
        (event_loop is Some) <==> config.spec_safe_async(),
    ensures
        (r matches Ok(plan)) <==> registrations@.len() == config.spec_documents().len(),
        r matches Ok(plan) ==> {
            let pairs = spec_routed_pairs(config.spec_documents(), registrations@, 0);
            &&& plan.collection.spec_config() == config
            &&& plan.collection.spec_event_loop() == event_loop
            &&& spec_pairs_of(plan.collection.spec_docs()) == pairs
            &&& plan.routes@.len() == pairs.len()
            &&& forall|k: int|
                0 <= k < pairs.len() ==> (#[trigger] plan.routes@[k]).document_name@ == pairs[k].0
                    && plan.routes@[k].path@ == spec_route_path(pairs[k].0)
            &&& plan.init_calls@ == spec_init_handles(registrations@, 0)
            &&& plan.collection.wf()
        },
{
    let ghost cd = config.spec_documents();
    let ghost regs = registrations@;
    let n = config.get_documents().len();
    if registrations.len() != n {
        return Err(RegistrationMismatchError);
    }
    let mut names: Vec<String> = Vec::new();
    let mut i: usize = 0;
    while i < n
        invariant
            i <= n,
            n == cd.len(),
            cd == config.spec_documents(),
            names@.len() == i,
            forall|k: int| 0 <= k < i ==> (#[trigger] names@[k])@ == cd[k].0@,
        decreases n - i,
    {
        let docs = config.get_documents();
        names.push(docs[i].0.clone());
        i = i + 1;
    }

    let mut collection = GlobalCollection::new(config, event_loop);
    let mut routes: Vec<RoutePlan> = Vec::new();
    let mut init_calls: Vec<FunctionHandle> = Vec::new();
    proof {
        assert(spec_pairs_of(collection.spec_docs()) =~= Seq::<(Seq<char>, FunctionHandle)>::empty());
    }
    let mut i: usize = 0;
    while i < n
        invariant
            i <= n,
            n == cd.len(),
            regs.len() == n,
            regs == registrations@,
            collection.spec_config().spec_documents() == cd,
            collection.spec_config() == config,
            collection.spec_event_loop() == event_loop,
            names@.len() == n,
            forall|k: int| 0 <= k < n ==> (#[trigger] names@[k])@ == cd[k].0@,
            forall|a: int, b: int| 0 <= a < b < cd.len() ==> cd[a].0@ != cd[b].0@,
            spec_routed_pairs(cd, regs, 0) == spec_pairs_of(collection.spec_docs())
                + spec_routed_pairs(cd, regs, i as int),
            spec_init_handles(regs, 0) == init_calls@ + spec_init_handles(regs, i as int),
            routes@.len() == collection.spec_docs().len(),
            forall|k: int|
                0 <= k < routes@.len() ==> (#[trigger] routes@[k]).document_name@
                    == collection.spec_docs()[k].spec_name() && routes@[k].path@ == spec_route_path(
                    collection.spec_docs()[k].spec_name(),
                ),
            forall|k: int|
                0 <= k < collection.spec_docs().len() ==> exists|j: int|
                    0 <= j < i && (#[trigger] collection.spec_docs()[k]).spec_name() == cd[j].0@,
            collection.wf(),
        decreases n - i,
    {
        let ghost docs_before = collection.spec_docs();
        let ghost init0 = init_calls@;
        let dec = &registrations[i];
        if str_eq(dec.get_mode(), "init") {
            init_calls.push(*dec.get_wraps());
            proof {
                assert(spec_routed_pairs(cd, regs, i as int) == spec_routed_pairs(
                    cd,
                    regs,
                    i + 1,
                ));
                assert(spec_init_handles(regs, i as int) == seq![regs[i as int].spec_wraps()]
                    + spec_init_handles(regs, i + 1));
                assert(init_calls@ + spec_init_handles(regs, i + 1) =~= init0 + spec_init_handles(
                    regs,
                    i as int,
                ));
            }
        } else {
            let name = names[i].clone();
            let doc = DataDocument::new(name, *dec.get_wraps());
            proof {
                assert(doc.spec_name() == cd[i as int].0@);
                assert forall|k: int|
                    0 <= k < collection.spec_docs().len() implies (
                #[trigger] collection.spec_docs()[k]).spec_name() != doc.spec_name() by {
                    let j = choose|j: int|
                        0 <= j < i && (#[trigger] collection.spec_docs()[k]).spec_name()
                            == cd[j].0@;
                    assert(cd[j].0@ != cd[i as int].0@);
                }
                assert(!collection.spec_has_document(doc.spec_name()));
            }
            collection.insert_document(doc);
            routes.push(create_route(names[i].as_str()));
            proof {
                assert(collection.spec_docs() == docs_before.push(doc));
                assert(spec_pairs_of(docs_before.push(doc)) =~= spec_pairs_of(docs_before).push(
                    spec_doc_pair(doc),
                ));
                assert(spec_routed_pairs(cd, regs, i as int) == seq![
                    (cd[i as int].0@, regs[i as int].spec_wraps()),
                ] + spec_routed_pairs(cd, regs, i + 1));
                assert(spec_doc_pair(doc) == (cd[i as int].0@, regs[i as int].spec_wraps()));
                assert(spec_pairs_of(collection.spec_docs()) + spec_routed_pairs(cd, regs, i + 1)
                    =~= spec_pairs_of(docs_before) + spec_routed_pairs(cd, regs, i as int));
                assert forall|a: int, b: int|
                    0 <= a < b < collection.spec_docs().len() implies (
                #[trigger] collection.spec_docs()[a]).spec_name() != (
                #[trigger] collection.spec_docs()[b]).spec_name() by {
                    if b < docs_before.len() {
                    } else {
                        assert(collection.spec_docs()[a] == docs_before[a]);
                        assert(collection.spec_docs()[b] == doc);
                    }
                }
            }
        }
        i = i + 1;
    }
    proof {
        assert(spec_routed_pairs(cd, regs, n as int) =~= Seq::<(Seq<char>, FunctionHandle)>::empty());
        assert(spec_init_handles(regs, n as int) =~= Seq::<FunctionHandle>::empty());
        assert(spec_pairs_of(collection.spec_docs()) =~= spec_routed_pairs(cd, regs, 0));
        assert(init_calls@ =~= spec_init_handles(regs, 0));
    }
    Ok(CatalogPlan { collection, routes, init_calls })
}

/// Law: when the registry snapshot has one entry per configured document,
/// every registration is accounted for exactly once — it becomes either a
/// routed document or an init call, so the two lists together hold exactly
/// one entry per document.
pub proof fn lemma_registrations_partition(
    docs: Seq<(String, String)>,
    regs: Seq<PyRegisterDecorator>,
    i: int,
)
    requires
        0 <= i <= docs.len(),
        docs.len() == regs.len(),
    ensures
        spec_routed_pairs(docs, regs, i).len() + spec_init_handles(regs, i).len() == docs.len()
            - i,
    decreases docs.len() - i,
{
    if i < docs.len() {
        lemma_registrations_partition(docs, regs, i + 1);
    }
}

/// How often a name occurs among the routed pairs.
pub open spec fn spec_count_name(
    pairs: Seq<(Seq<char>, FunctionHandle)>,
    name: Seq<char>,
) -> int
    decreases pairs.len(),
{
    if pairs.len() == 0 {
        0
    } else {
        (if pairs[0].0 == name {
            1int
        } else {
            0int
        }) + spec_count_name(pairs.drop_first(), name)
    }
}

proof fn lemma_count_from(
    docs: Seq<(String, String)>,
    regs: Seq<PyRegisterDecorator>,
    j: int,
    i: int,
)
    requires
        0 <= i <= docs.len(),
        docs.len() == regs.len(),
        0 <= j < docs.len(),
        forall|a: int, b: int| 0 <= a < b < docs.len() ==> docs[a].0@ != docs[b].0@,
    ensures
        spec_count_name(spec_routed_pairs(docs, regs, i), docs[j].0@) == if i <= j
            && !spec_is_init(regs[j].spec_mode()) {
            1int
        } else {
            0int
        },
    decreases docs.len() - i,
{
    if i < docs.len() {
        lemma_count_from(docs, regs, j, i + 1);
        if !spec_is_init(regs[i].spec_mode()) {
            let rest = spec_routed_pairs(docs, regs, i + 1);
            let whole = seq![(docs[i].0@, regs[i].spec_wraps())] + rest;
            assert(spec_routed_pairs(docs, regs, i) == whole);
            assert(whole.drop_first() =~= rest);
            assert(whole[0].0 == docs[i].0@);
            if i != j {
                if i < j {
                    assert(docs[i].0@ != docs[j].0@);
                } else {
                    assert(docs[j].0@ != docs[i].0@);
                }
            }
        }
    }
}

/// Law: exactly one route exists per non-init document and none for an
/// init-mode document — among the routed pairs a non-init document's name
/// occurs exactly once, an init document's name not at all.
pub proof fn lemma_one_route_per_document(
    docs: Seq<(String, String)>,
    regs: Seq<PyRegisterDecorator>,
    j: int,
)
    requires
        docs.len() == regs.len(),
        0 <= j < docs.len(),
        forall|a: int, b: int| 0 <= a < b < docs.len() ==> docs[a].0@ != docs[b].0@,
    ensures
        !spec_is_init(regs[j].spec_mode()) ==> spec_count_name(
            spec_routed_pairs(docs, regs, 0),
            docs[j].0@,
        ) == 1,
        spec_is_init(regs[j].spec_mode()) ==> spec_count_name(
            spec_routed_pairs(docs, regs, 0),
            docs[j].0@,
        ) == 0,
{
    lemma_count_from(docs, regs, j, 0);
}

} // verus!
