//! The world model: the versioned state an agent run transforms. A world
//! carries a filesystem image, an execution context with an append-only
//! history, a knowledge base (fixed principles, learnings, decisions), and
//! free-form metadata.

use vstd::prelude::*;

use crate::text::str_eq;

verus! {

// ---------------------------------------------------------------------------
// A string-keyed map, stored as an association list
// ---------------------------------------------------------------------------
/// The mapping an entry list denotes: later entries override earlier ones.
pub open spec fn map_of(entries: Seq<(Seq<char>, Seq<char>)>) -> Map<Seq<char>, Seq<char>>
    decreases entries.len(),
{
    if entries.len() == 0 {
        Map::empty()
    } else {
        map_of(entries.drop_last()).insert(entries.last().0, entries.last().1)
    }
}

proof fn lemma_map_of_absent(entries: Seq<(Seq<char>, Seq<char>)>, key: Seq<char>)
    requires
        forall|j: int| 0 <= j < entries.len() ==> (#[trigger] entries[j]).0 != key,
    ensures
        !map_of(entries).contains_key(key),
    decreases entries.len(),
{
    if entries.len() > 0 {
        lemma_map_of_absent(entries.drop_last(), key);
    }
}

proof fn lemma_map_of_found(entries: Seq<(Seq<char>, Seq<char>)>, m: int, key: Seq<char>)
    requires
        0 <= m < entries.len(),
        entries[m].0 == key,
        forall|j: int| m < j < entries.len() ==> (#[trigger] entries[j]).0 != key,
    ensures
        map_of(entries).contains_key(key),
        map_of(entries)[key] == entries[m].1,
    decreases entries.len(),
{
    if m < entries.len() - 1 {
        lemma_map_of_found(entries.drop_last(), m, key);
    }
}

/// A mapping from strings to strings, held as an ordered entry list whose
/// later entries override earlier ones.
#[derive(Debug, Clone)]
pub struct StringMap {
    pub entries: Vec<(String, String)>,
}

impl View for StringMap {
    type V = Map<Seq<char>, Seq<char>>;

    open spec fn view(&self) -> Map<Seq<char>, Seq<char>> {
        map_of(self.entries.deep_view())
    }
}

impl DeepView for StringMap {
    type V = Map<Seq<char>, Seq<char>>;

    open spec fn deep_view(&self) -> Map<Seq<char>, Seq<char>> {
        self.view()
    }
}

impl StringMap {
    /// An empty mapping.
    pub fn new() -> (r: Self)
        ensures
            r@ == Map::<Seq<char>, Seq<char>>::empty(),
            r.entries@.len() == 0,
    {
        let r = StringMap { entries: Vec::new() };
        proof {
            assert(r.entries.deep_view().len() == 0);
        }
        r
    }

    /// Binds `key` to `value`, overriding any earlier binding.
    pub fn insert(&mut self, key: String, value: String)
        ensures
            final(self)@ == old(self)@.insert(key@, value@),
            final(self).entries@.len() == old(self).entries@.len() + 1,
    {
        let ghost old_entries = self.entries.deep_view();
        self.entries.push((key, value));
        proof {
            assert(self.entries.deep_view().drop_last() =~~= old_entries);
            assert(self.entries.deep_view().last() == (key@, value@));
        }
    }

    /// Looks `key` up; the latest binding wins.
    pub fn get(&self, key: &str) -> (r: Option<&String>)
        ensures
            match r {
                Some(v) => self@.contains_key(key@) && v@ == self@[key@],
                None => !self@.contains_key(key@),
            },
    {
        let n = self.entries.len();
        let mut i: usize = n;
        while i > 0
            invariant
                i <= n,
                n == self.entries@.len(),
                forall|j: int| i <= j < n ==> (#[trigger] self.entries.deep_view()[j]).0 != key@,
            decreases i,
        {
            i -= 1;
            if str_eq(self.entries[i].0.as_str(), key) {
                proof {
                    lemma_map_of_found(self.entries.deep_view(), i as int, key@);
                }
                return Some(&self.entries[i].1);
            }
        }
        proof {
            lemma_map_of_absent(self.entries.deep_view(), key@);
        }
        None
    }

    /// A copy denoting the same mapping.
    pub fn duplicate(&self) -> (r: Self)
        ensures
            r@ == self@,
            r.entries.deep_view() == self.entries.deep_view(),
    {
        let n = self.entries.len();
        let mut entries: Vec<(String, String)> = Vec::new();
        let mut i: usize = 0;
        proof {
            assert(entries.deep_view() =~~= self.entries.deep_view().take(0));
        }
        while i < n
            invariant
                i <= n,
                n == self.entries@.len(),
                entries@.len() == i,
                entries.deep_view() == self.entries.deep_view().take(i as int),
            decreases n - i,
        {
            let key = self.entries[i].0.clone();
            let value = self.entries[i].1.clone();
            entries.push((key, value));
            proof {
                assert(entries.deep_view() =~~= self.entries.deep_view().take(i + 1));
            }
            i += 1;
        }
        proof {
            assert(self.entries.deep_view().take(n as int) =~~= self.entries.deep_view());
        }
        StringMap { entries }
    }
}

// ---------------------------------------------------------------------------
// Knowledge: principles, learnings, decisions
// ---------------------------------------------------------------------------
/// The kind of an organisational principle.
#[derive(Clone, Copy, Debug, PartialEq, Eq, Structural)]
pub enum PrincipleCategory {
    /// Declarations about the human's role.
    Human,
    /// The organisation's purpose.
    Organization,
    /// Behavioural guidelines.
    Behavioral,
    /// Principles for the use of AI.
    AIUtilization,
}

/// An organisational principle, loaded once when a world is created.
#[derive(Debug, Clone)]
pub struct Principle {
    pub name: String,
    pub description: String,
    pub category: PrincipleCategory,
}

/// A `Principle`, as a mathematical value.
#[verifier::ext_equal]
pub ghost struct PrincipleView {
    pub name: Seq<char>,
    pub description: Seq<char>,
    pub category: PrincipleCategory,
}

impl View for Principle {
    type V = PrincipleView;

    open spec fn view(&self) -> PrincipleView {
        PrincipleView { name: self.name@, description: self.description@, category: self.category }
    }
}

impl DeepView for Principle {
    type V = PrincipleView;

    open spec fn deep_view(&self) -> PrincipleView {
        self.view()
    }
}

/// A recorded insight. `confidence` is a fixed-point fraction in
/// thousandths: 1000 stands for full confidence.
#[derive(Debug, Clone)]
pub struct Learning {
    pub timestamp: String,
    pub content: String,
    pub source: String,
    pub confidence: u32,
}

/// A `Learning`, as a mathematical value.
#[verifier::ext_equal]
pub ghost struct LearningView {
    pub timestamp: Seq<char>,
    pub content: Seq<char>,
    pub source: Seq<char>,
    pub confidence: u32,
}

impl View for Learning {
    type V = LearningView;

    open spec fn view(&self) -> LearningView {
        LearningView {
            timestamp: self.timestamp@,
            content: self.content@,
            source: self.source@,
            confidence: self.confidence,
        }
    }
}

impl DeepView for Learning {
    type V = LearningView;

    open spec fn deep_view(&self) -> LearningView {
        self.view()
    }
}

/// A recorded decision.
#[derive(Debug, Clone)]
pub struct Decision {
    pub timestamp: String,
    pub purpose: String,
    pub input: String,
    pub options: Vec<String>,
    pub rationale: String,
    pub approver: String,
    pub impact_scope: String,
    pub alternatives: Vec<String>,
    pub revocation_conditions: Vec<String>,
}

/// A `Decision`, as a mathematical value.
#[verifier::ext_equal]
pub ghost struct DecisionView {
    pub timestamp: Seq<char>,
    pub purpose: Seq<char>,
    pub input: Seq<char>,
    pub options: Seq<Seq<char>>,
    pub rationale: Seq<char>,
    pub approver: Seq<char>,
    pub impact_scope: Seq<char>,
    pub alternatives: Seq<Seq<char>>,
    pub revocation_conditions: Seq<Seq<char>>,
}

impl View for Decision {
    type V = DecisionView;

    open spec fn view(&self) -> DecisionView {
        DecisionView {
            timestamp: self.timestamp@,
            purpose: self.purpose@,
            input: self.input@,
            options: self.options.deep_view(),
            rationale: self.rationale@,
            approver: self.approver@,
            impact_scope: self.impact_scope@,
            alternatives: self.alternatives.deep_view(),
            revocation_conditions: self.revocation_conditions.deep_view(),
        }
    }
}

impl DeepView for Decision {
    type V = DecisionView;

    open spec fn deep_view(&self) -> DecisionView {
        self.view()
    }
}

/// The knowledge a world accumulates: a fixed list of principles, and
/// append-only logs of learnings and decisions.
#[derive(Debug, Clone)]
pub struct KnowledgeBase {
    pub principles: Vec<Principle>,
    pub learnings: Vec<Learning>,
    pub decisions: Vec<Decision>,
}

/// A `KnowledgeBase`, as a mathematical value.
#[verifier::ext_equal]
pub ghost struct KnowledgeView {
    pub principles: Seq<PrincipleView>,
    pub learnings: Seq<LearningView>,
    pub decisions: Seq<DecisionView>,
}

impl View for KnowledgeBase {
    type V = KnowledgeView;

    open spec fn view(&self) -> KnowledgeView {
        KnowledgeView {
            principles: self.principles.deep_view(),
            learnings: self.learnings.deep_view(),
            decisions: self.decisions.deep_view(),
        }
    }
}

/// The charter principles every fresh world starts from.
pub open spec fn charter_principles() -> Seq<PrincipleView> {
    seq![
        PrincipleView {
            name: "人間は判断する"@,
            description: "AIは情報を示す。最終的な選択と責任は人間にある"@,
            category: PrincipleCategory::Human,
        },
        PrincipleView {
            name: "意図を持って問いを立てる"@,
            description: "正しい答えよりも、正しい問いを生み出す力を尊ぶ"@,
            category: PrincipleCategory::Human,
        },
        PrincipleView {
            name: "公正と透明性"@,
            description: "意思決定の記録を保存し、説明可能性を維持する"@,
            category: PrincipleCategory::Organization,
        },
        PrincipleView {
            name: "目的の明確化"@,
            description: "利用前に「何を・なぜ・どのように」使うかを定義する"@,
            category: PrincipleCategory::AIUtilization,
        },
    ]
}

impl KnowledgeBase {
    /// Loads the charter principles.
    fn load_charter_principles() -> (r: Vec<Principle>)
        ensures
            r.deep_view() == charter_principles(),
    {
        let mut r: Vec<Principle> = Vec::new();
        r.push(
            Principle {
                name: "人間は判断する".to_owned(),
                description: "AIは情報を示す。最終的な選択と責任は人間にある".to_owned(),
                category: PrincipleCategory::Human,
            },
        );
        r.push(
            Principle {
                name: "意図を持って問いを立てる".to_owned(),
                description: "正しい答えよりも、正しい問いを生み出す力を尊ぶ".to_owned(),
                category: PrincipleCategory::Human,
            },
        );
        r.push(
            Principle {
                name: "公正と透明性".to_owned(),
                description: "意思決定の記録を保存し、説明可能性を維持する".to_owned(),
                category: PrincipleCategory::Organization,
            },
        );
        r.push(
            Principle {
                name: "目的の明確化".to_owned(),
                description: "利用前に「何を・なぜ・どのように」使うかを定義する".to_owned(),
                category: PrincipleCategory::AIUtilization,
            },
        );
        proof {
            assert(r.deep_view() =~~= charter_principles());
        }
        r
    }
}

impl Default for KnowledgeBase {
    /// A knowledge base holding the charter principles and empty logs.
    fn default() -> (r: Self)
        ensures
            r@.principles == charter_principles(),
            r@.learnings == Seq::<LearningView>::empty(),
            r@.decisions == Seq::<DecisionView>::empty(),
    {
        let r = KnowledgeBase {
            principles: KnowledgeBase::load_charter_principles(),
            learnings: Vec::new(),
            decisions: Vec::new(),
        };
        proof {
            assert(r@.learnings =~= Seq::<LearningView>::empty());
            assert(r@.decisions =~= Seq::<DecisionView>::empty());
        }
        r
    }
}

// ---------------------------------------------------------------------------
// Execution context
// ---------------------------------------------------------------------------
/// Where a run executes: a working directory, environment bindings, and the
/// append-only execution history.
#[derive(Debug, Clone)]
pub struct ExecutionContext {
    pub working_directory: String,
    pub environment: StringMap,
    pub history: Vec<String>,
}

/// An `ExecutionContext`, as a mathematical value.
#[verifier::ext_equal]
pub ghost struct ContextView {
    pub working_directory: Seq<char>,
    pub environment: Map<Seq<char>, Seq<char>>,
    pub history: Seq<Seq<char>>,
}

impl View for ExecutionContext {
    type V = ContextView;

    open spec fn view(&self) -> ContextView {
        ContextView {
            working_directory: self.working_directory@,
            environment: self.environment@,
            history: self.history.deep_view(),
        }
    }
}

impl Default for ExecutionContext {
    /// A context in the current directory with nothing recorded yet.
    fn default() -> (r: Self)
        ensures
            r@.working_directory == "."@,
            r@.environment == Map::<Seq<char>, Seq<char>>::empty(),
            r@.history == Seq::<Seq<char>>::empty(),
    {
        let r = ExecutionContext {
            working_directory: ".".to_owned(),
            environment: StringMap::new(),
            history: Vec::new(),
        };
        proof {
            assert(r@.history =~= Seq::<Seq<char>>::empty());
        }
        r
    }
}

// ---------------------------------------------------------------------------
// The world
// ---------------------------------------------------------------------------
/// The versioned state carried across iterations of a run. The version
/// counts completed transformations; history, learnings and decisions are
/// append-only; the principles never change.
#[derive(Debug, Clone)]
pub struct World {
    pub version: usize,
    pub filesystem: StringMap,
    pub context: ExecutionContext,
    pub knowledge: KnowledgeBase,
    pub metadata: StringMap,
}

/// A `World`, as a mathematical value.
#[verifier::ext_equal]
pub ghost struct WorldView {
    pub version: nat,
    pub filesystem: Map<Seq<char>, Seq<char>>,
    pub context: ContextView,
    pub knowledge: KnowledgeView,
    pub metadata: Map<Seq<char>, Seq<char>>,
}

impl View for World {
    type V = WorldView;

    open spec fn view(&self) -> WorldView {
        WorldView {
            version: self.version as nat,
            filesystem: self.filesystem@,
            context: self.context@,
            knowledge: self.knowledge@,
            metadata: self.metadata@,
        }
    }
}

/// The state of a freshly created world.
pub open spec fn initial_world() -> WorldView {
    WorldView {
        version: 0,
        filesystem: Map::empty(),
        context: ContextView {
            working_directory: "."@,
            environment: Map::empty(),
            history: Seq::empty(),
        },
        knowledge: KnowledgeView {
            principles: charter_principles(),
            learnings: Seq::empty(),
            decisions: Seq::empty(),
        },
        metadata: Map::empty(),
    }
}

impl World {
    /// A fresh world: version 0, empty logs, the charter principles loaded.
    pub fn new() -> (r: Self)
        ensures
            r@ == initial_world(),
    {
        let r = World {
            version: 0,
            filesystem: StringMap::new(),
            context: ExecutionContext::default(),
            knowledge: KnowledgeBase::default(),
            metadata: StringMap::new(),
        };
        r
    }

    /// Moves the world to its next version.
    pub fn advance(&mut self)
        requires
            old(self).version < usize::MAX,
        ensures
            final(self)@ == (WorldView { version: old(self)@.version + 1, ..old(self)@ }),
    {
        self.version = self.version + 1;
    }

    /// Appends a decision to the decision log; nothing else changes.
    pub fn record_decision(&mut self, decision: Decision)
        ensures
            final(self)@ == (WorldView {
                knowledge: KnowledgeView {
                    decisions: old(self)@.knowledge.decisions.push(decision@),
                    ..old(self)@.knowledge
                },
                ..old(self)@
            }),
    {
        self.knowledge.decisions.push(decision);
        proof {
            assert(self.knowledge.decisions.deep_view() =~= old(
                self,
            ).knowledge.decisions.deep_view().push(decision@));
        }
    }

    /// Appends a learning to the learning log; nothing else changes.
    pub fn record_learning(&mut self, learning: Learning)
        ensures
            final(self)@ == (WorldView {
                knowledge: KnowledgeView {
                    learnings: old(self)@.knowledge.learnings.push(learning@),
                    ..old(self)@.knowledge
                },
                ..old(self)@
            }),
    {
        self.knowledge.learnings.push(learning);
        proof {
            assert(self.knowledge.learnings.deep_view() =~= old(
                self,
            ).knowledge.learnings.deep_view().push(learning@));
        }
    }

    /// A copy denoting the same world state.
    pub fn snapshot(&self) -> (r: World)
        ensures
            r@ == self@,
    {
        World {
            version: self.version,
            filesystem: self.filesystem.duplicate(),
            context: ExecutionContext {
                working_directory: self.context.working_directory.clone(),
                environment: self.context.environment.duplicate(),
                history: duplicate_strings(&self.context.history),
            },
            knowledge: KnowledgeBase {
                principles: duplicate_principles(&self.knowledge.principles),
                learnings: duplicate_learnings(&self.knowledge.learnings),
                decisions: duplicate_decisions(&self.knowledge.decisions),
            },
            metadata: self.metadata.duplicate(),
        }
    }
}

impl Default for World {
    /// The same fresh world `World::new` gives.
    fn default() -> (r: Self)
        ensures
            r@ == initial_world(),
    {
        World::new()
    }
}

/// An element-wise copy of a string list.
pub fn duplicate_strings(v: &Vec<String>) -> (r: Vec<String>)
    ensures
        r.deep_view() == v.deep_view(),
{
    let n = v.len();
    let mut r: Vec<String> = Vec::new();
    let mut i: usize = 0;
    proof {
        assert(r.deep_view() =~~= v.deep_view().take(0));
    }
    while i < n
        invariant
            i <= n,
            n == v@.len(),
            r@.len() == i,
            r.deep_view() == v.deep_view().take(i as int),
        decreases n - i,
    {
        r.push(v[i].clone());
        proof {
            assert(r.deep_view() =~~= v.deep_view().take(i + 1));
        }
        i += 1;
    }
    proof {
        assert(v.deep_view().take(n as int) =~~= v.deep_view());
    }
    r
}

fn duplicate_principles(v: &Vec<Principle>) -> (r: Vec<Principle>)
    ensures
        r.deep_view() == v.deep_view(),
{
    let n = v.len();
    let mut r: Vec<Principle> = Vec::new();
    let mut i: usize = 0;
    proof {
        assert(r.deep_view() =~~= v.deep_view().take(0));
    }
    while i < n
        invariant
            i <= n,
            n == v@.len(),
            r@.len() == i,
            r.deep_view() == v.deep_view().take(i as int),
        decreases n - i,
    {
        let p = &v[i];
        r.push(
            Principle {
                name: p.name.clone(),
                description: p.description.clone(),
                category: p.category,
            },
        );
        proof {
            assert(r.deep_view() =~~= v.deep_view().take(i + 1));
        }
        i += 1;
    }
    proof {
        assert(v.deep_view().take(n as int) =~~= v.deep_view());
    }
    r
}

fn duplicate_learnings(v: &Vec<Learning>) -> (r: Vec<Learning>)
    ensures
        r.deep_view() == v.deep_view(),
{
    let n = v.len();
    let mut r: Vec<Learning> = Vec::new();
    let mut i: usize = 0;
    proof {
        assert(r.deep_view() =~~= v.deep_view().take(0));
    }
    while i < n
        invariant
            i <= n,
            n == v@.len(),
            r@.len() == i,
            r.deep_view() == v.deep_view().take(i as int),
        decreases n - i,
    {
        let l = &v[i];
        r.push(
            Learning {
                timestamp: l.timestamp.clone(),
                content: l.content.clone(),
                source: l.source.clone(),
                confidence: l.confidence,
            },
        );
        proof {
            assert(r.deep_view() =~~= v.deep_view().take(i + 1));
        }
        i += 1;
    }
    proof {
        assert(v.deep_view().take(n as int) =~~= v.deep_view());
    }
    r
}

fn duplicate_decisions(v: &Vec<Decision>) -> (r: Vec<Decision>)
    ensures
        r.deep_view() == v.deep_view(),
{
    let n = v.len();
    let mut r: Vec<Decision> = Vec::new();
    let mut i: usize = 0;
    proof {
        assert(r.deep_view() =~~= v.deep_view().take(0));
    }
    while i < n
        invariant
            i <= n,
            n == v@.len(),
            r@.len() == i,
            r.deep_view() == v.deep_view().take(i as int),
        decreases n - i,
    {
        let d = &v[i];
        r.push(
            Decision {
                timestamp: d.timestamp.clone(),
                purpose: d.purpose.clone(),
                input: d.input.clone(),
                options: duplicate_strings(&d.options),
                rationale: d.rationale.clone(),
                approver: d.approver.clone(),
                impact_scope: d.impact_scope.clone(),
                alternatives: duplicate_strings(&d.alternatives),
                revocation_conditions: duplicate_strings(&d.revocation_conditions),
            },
        );
        proof {
            assert(r.deep_view() =~~= v.deep_view().take(i + 1));
        }
        i += 1;
    }
    proof {
        assert(v.deep_view().take(n as int) =~~= v.deep_view());
    }
    r
}

} // verus!
