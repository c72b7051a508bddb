use vstd::prelude::*;

use crate::ids::{AsstId, CreateConfig};

verus! {

/// How many assistants one listing asks the service for.
pub const LIST_PAGE_LIMIT: u64 = 100;

/// One entry of the service's list of assistants.
#[derive(Debug, Clone, PartialEq, Eq)]
pub struct AssistantSummary {
    pub id: String,
    pub name: Option<String>,
}

/// Whether the summary carries exactly the name `name`.
pub open spec fn name_matches(s: AssistantSummary, name: Seq<char>) -> bool {
    s.name matches Some(n) && n@ == name
}

/// The id of the first listed assistant named `name`, if any.
pub open spec fn first_match(list: Seq<AssistantSummary>, name: Seq<char>) -> Option<Seq<char>>
    decreases list.len(),
{
    if list.len() == 0 {
        None
    } else if name_matches(list[0], name) {
        Some(list[0].id@)
    } else {
        first_match(list.drop_first(), name)
    }
}

/// The existing assistant that a resolve keeps: the first match, unless a
/// recreate was asked for, in which case none is kept.
pub open spec fn kept_id(list: Seq<AssistantSummary>, name: Seq<char>, recreate: bool) -> Option<
    Seq<char>,
> {
    if recreate {
        None
    } else {
        first_match(list, name)
    }
}

/// The identity a resolve ends with: the kept one, or else the one the
/// service handed back on creation.
pub open spec fn resolved_id(
    list: Seq<AssistantSummary>,
    name: Seq<char>,
    recreate: bool,
    created: Seq<char>,
) -> Seq<char> {
    match kept_id(list, name, recreate) {
        Some(id) => id,
        None => created,
    }
}

/// The listing with its first assistant named `name` taken out.
pub open spec fn remove_first_match(list: Seq<AssistantSummary>, name: Seq<char>) -> Seq<
    AssistantSummary,
>
    decreases list.len(),
{
    if list.len() == 0 {
        list
    } else if name_matches(list[0], name) {
        list.drop_first()
    } else {
        seq![list[0]] + remove_first_match(list.drop_first(), name)
    }
}

/// The listing after a resolve, for a service that removes a deleted
/// assistant and lists a new one after the old ones.
pub open spec fn registry_after(
    list: Seq<AssistantSummary>,
    name: Seq<char>,
    recreate: bool,
    created: AssistantSummary,
) -> Seq<AssistantSummary> {
    if kept_id(list, name, recreate) is Some {
        list
    } else {
        remove_first_match(list, name).push(created)
    }
}

proof fn lemma_remove_absent(list: Seq<AssistantSummary>, name: Seq<char>)
    requires
        first_match(list, name) is None,
    ensures
        remove_first_match(list, name) == list,
    decreases list.len(),
{
    if list.len() > 0 {
        lemma_remove_absent(list.drop_first(), name);
        assert(seq![list[0]] + list.drop_first() =~= list);
    }
}

proof fn lemma_first_match_push(list: Seq<AssistantSummary>, name: Seq<char>, x: AssistantSummary)
    requires
        first_match(list, name) is None,
        name_matches(x, name),
    ensures
        first_match(list.push(x), name) == Some(x.id@),
    decreases list.len(),
{
    if list.len() == 0 {
        assert(list.push(x)[0] == x);
    } else {
        lemma_first_match_push(list.drop_first(), name, x);
        assert(list.push(x).drop_first() =~= list.drop_first().push(x));
        assert(list.push(x)[0] == list[0]);
    }
}

proof fn lemma_first_match_listed(list: Seq<AssistantSummary>, name: Seq<char>)
    requires
        first_match(list, name) is Some,
    ensures
        exists|i: int| 0 <= i < list.len() && list[i].id@ == first_match(list, name)->Some_0,
    decreases list.len(),
{
    if !name_matches(list[0], name) {
        lemma_first_match_listed(list.drop_first(), name);
        let i = choose|i: int|
            0 <= i < list.drop_first().len() && list.drop_first()[i].id@ == first_match(
                list.drop_first(),
                name,
            )->Some_0;
        assert(list[i + 1] == list.drop_first()[i]);
    }
}

/// Resolving a name twice without recreating, against a service that holds
/// on to what the first resolve left behind, yields the same identity both
/// times, whatever the service would hand out on a second creation.
pub proof fn lemma_resolve_idempotent(
    list: Seq<AssistantSummary>,
    name: Seq<char>,
    created: AssistantSummary,
    created_again: Seq<char>,
)
    requires
        name_matches(created, name),
    ensures
        resolved_id(registry_after(list, name, false, created), name, false, created_again)
            == resolved_id(list, name, false, created.id@),
{
    if first_match(list, name) is None {
        lemma_remove_absent(list, name);
        lemma_first_match_push(list, name, created);
    }
}

/// Resolving with a recreate, where an assistant of that name was listed,
/// ends with an identity other than the listed one, for a service that
/// never hands out an identity it already lists.
pub proof fn lemma_recreate_yields_new(
    list: Seq<AssistantSummary>,
    name: Seq<char>,
    created: Seq<char>,
)
    requires
        first_match(list, name) is Some,
        forall|i: int| 0 <= i < list.len() ==> list[i].id@ != created,
    ensures
        resolved_id(list, name, true, created) != first_match(list, name)->Some_0,
{
    lemma_first_match_listed(list, name);
}

/// Looks up the first assistant of the listing whose name is `name`.
pub fn find_by_name(assistants: &Vec<AssistantSummary>, name: &str) -> (r: Option<AsstId>)
    ensures
        r is None <==> first_match(assistants@, name@) is None,
        r matches Some(id) ==> first_match(assistants@, name@) == Some(id.0@),
{
    let n: usize = assistants.len();
    let wanted: String = name.to_owned();
    let mut i: usize = 0;
    assert(assistants@.subrange(0, n as int) =~= assistants@);
    while i < n
        invariant
            n == assistants@.len(),
            wanted@ == name@,
            i <= n,
            first_match(assistants@, name@) == first_match(assistants@.subrange(i as int, n as int), name@),
        decreases n - i,
    {
        let ghost rest = assistants@.subrange(i as int, n as int);
        assert(rest.drop_first() =~= assistants@.subrange(i + 1, n as int));
        assert(rest[0] == assistants@[i as int]);
        let s = &assistants[i];
        let hit = match &s.name {
            Some(sn) => *sn == wanted,
            None => false,
        };
        if hit {
            return Some(AsstId(s.id.clone()));
        }
        i = i + 1;
    }
    assert(assistants@.subrange(n as int, n as int).len() == 0);
    None
}

/// Where a resolve stands.
#[derive(Debug, Clone, Copy, PartialEq, Eq, Structural)]
pub enum ResolvePhase {
    Listing,
    Deleting,
    Creating,
    Finished,
}

/// What the caller is to do next for a resolve.
#[derive(Debug, Clone, PartialEq, Eq)]
pub enum ResolveAction {
    /// List the service's assistants, up to `LIST_PAGE_LIMIT` of them.
    ListAssistants,
    /// Delete this assistant, then report with `on_deleted`.
    DeleteAssistant(AsstId),
    /// Create an assistant with this name and model (retrieval enabled),
    /// then report its id with `on_created`.
    CreateAssistant(CreateConfig),
    /// The resolve is over: this is the assistant to use.
    Done(AsstId),
}

/// Resolves an assistant by name, creating it when it is missing and
/// replacing it when a recreate is asked for.
pub struct Resolver {
    pub config: CreateConfig,
    pub recreate: bool,
    pub phase: ResolvePhase,
    /// The listing the resolve went by, once it came.
    pub listed: Ghost<Seq<AssistantSummary>>,
}

impl Resolver {
    /// What each phase owes to the listing: a deletion only of a listed
    /// match on a recreate, a creation only when nothing is kept.
    pub open spec fn wf(&self) -> bool {
        match self.phase {
            ResolvePhase::Deleting => self.recreate && first_match(
                self.listed@,
                self.config.name@,
            ) is Some,
            ResolvePhase::Creating => kept_id(self.listed@, self.config.name@, self.recreate) is None,
            _ => true,
        }
    }

    /// Starts a resolve: the first step is always a listing.
    pub fn new(config: CreateConfig, recreate: bool) -> (r: (Resolver, ResolveAction))
        ensures
            r.0.wf(),
            r.0.config == config,
            r.0.recreate == recreate,
            r.0.phase == ResolvePhase::Listing,
            r.1 is ListAssistants,
    {
        (
            Resolver {
                config,
                recreate,
                phase: ResolvePhase::Listing,
                listed: Ghost(Seq::empty()),
            },
            ResolveAction::ListAssistants,
        )
    }

    /// Takes the listing: keeps the first match, deletes it when a recreate
    /// was asked for, and creates an assistant when none is kept.
    pub fn on_listed(&mut self, assistants: &Vec<AssistantSummary>) -> (r: ResolveAction)
        requires
            old(self).phase == ResolvePhase::Listing,
        ensures
            final(self).wf(),
            final(self).config == old(self).config,
            final(self).recreate == old(self).recreate,
            final(self).listed@ == assistants@,
            match kept_id(assistants@, old(self).config.name@, old(self).recreate) {
                Some(id) => r matches ResolveAction::Done(a) && a.0@ == id
                    && final(self).phase == ResolvePhase::Finished,
                None => match first_match(assistants@, old(self).config.name@) {
                    Some(id) => r matches ResolveAction::DeleteAssistant(a) && a.0@ == id
                        && final(self).phase == ResolvePhase::Deleting,
                    None => r == ResolveAction::CreateAssistant(old(self).config)
                        && final(self).phase == ResolvePhase::Creating,
                },
            },
            r matches ResolveAction::Done(a) ==> forall|created: Seq<char>|
                #[trigger] resolved_id(assistants@, old(self).config.name@, old(self).recreate, created)
                    == a.0@,
    {
        self.listed = Ghost(assistants@);
        match find_by_name(assistants, self.config.name.as_str()) {
            Some(id) => {
                if self.recreate {
                    self.phase = ResolvePhase::Deleting;
                    ResolveAction::DeleteAssistant(id)
                } else {
                    self.phase = ResolvePhase::Finished;
                    ResolveAction::Done(id)
                }
            },
            None => {
                self.phase = ResolvePhase::Creating;
                ResolveAction::CreateAssistant(self.config.duplicate())
            },
        }
    }

    /// The old assistant is gone: a new one is created in its place.
    pub fn on_deleted(&mut self) -> (r: ResolveAction)
        requires
            old(self).wf(),
            old(self).phase == ResolvePhase::Deleting,
        ensures
            final(self).wf(),
            final(self).config == old(self).config,
            final(self).recreate == old(self).recreate,
            final(self).listed == old(self).listed,
            final(self).phase == ResolvePhase::Creating,
            r == ResolveAction::CreateAssistant(old(self).config),
    {
        self.phase = ResolvePhase::Creating;
        ResolveAction::CreateAssistant(self.config.duplicate())
    }

    /// The service created an assistant: it is the one to use.
    pub fn on_created(&mut self, id: AsstId) -> (r: ResolveAction)
        requires
            old(self).wf(),
            old(self).phase == ResolvePhase::Creating,
        ensures
            final(self).wf(),
            final(self).config == old(self).config,
            final(self).recreate == old(self).recreate,
            final(self).listed == old(self).listed,
            final(self).phase == ResolvePhase::Finished,
            r == ResolveAction::Done(id),
            id.0@ == resolved_id(old(self).listed@, old(self).config.name@, old(self).recreate, id.0@),
    {
        self.phase = ResolvePhase::Finished;
        ResolveAction::Done(id)
    }
}

} // verus!
