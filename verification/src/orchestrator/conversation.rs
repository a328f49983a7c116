//! One conversation's state between model calls: the recent-turn window, the
//! last context sent (for the debug inspector) and the session id; building
//! the context for a new user message and recording the finished exchange.

use vstd::prelude::*;

use super::context::{
    contents, episodic_drop, fit_context_by_age, memory_view, oldest_first, recent_drop,
    recent_window, views, AssembledContext, EpisodicMemory, Turn,
};
use super::defer::{extract_defer, extract_spec, importance_heuristic, DeferExtract, ImportanceLevel};
use crate::text::word_count;

verus! {

/// The last `window` turns of `turns`, oldest first.
pub open spec fn window_of(turns: Seq<Turn>, window: int) -> Seq<Turn> {
    turns.skip(turns.len() - (if window < turns.len() {
        window
    } else {
        turns.len() as int
    }))
}

/// A turn to be written to episodic memory.
#[derive(Debug)]
pub struct StoredTurn {
    pub role: String,
    pub content: String,
    pub importance: ImportanceLevel,
}

/// Conversation state kept by the orchestrator.
pub struct Conversation {
    recent_turns: Vec<Turn>,
    last_context: Option<AssembledContext>,
    session_id: String,
}

impl Conversation {
    /// Every turn recorded so far, oldest first.
    pub closed spec fn turns(&self) -> Seq<Turn> {
        self.recent_turns@
    }

    /// The last context sent to the model since the last reset.
    pub closed spec fn last_context_spec(&self) -> Option<AssembledContext> {
        self.last_context
    }

    /// Whether a context has been sent since the last reset.
    pub open spec fn has_last_context(&self) -> bool {
        self.last_context_spec() is Some
    }

    /// The session id.
    pub closed spec fn session(&self) -> Seq<char> {
        self.session_id@
    }

    /// A conversation with no turns under `session_id`.
    pub fn with_session(session_id: String) -> (r: Self)
        ensures
            r.turns() == Seq::<Turn>::empty(),
            !r.has_last_context(),
            r.session() == session_id@,
    {
        Conversation { recent_turns: Vec::new(), last_context: None, session_id }
    }

    /// A conversation with no turns under a fresh random session id (the
    /// hyphenated text of a random UUID).
    pub fn new() -> (r: Self)
        ensures
            r.turns() == Seq::<Turn>::empty(),
            !r.has_last_context(),
            crate::clock::uuid_v4_text(r.session()),
    {
        Self::with_session(crate::clock::new_id())
    }

    /// The session id.
    pub fn session_id(&self) -> (r: &str)
        ensures
            r@ == self.session(),
    {
        self.session_id.as_str()
    }

    /// The last context sent to the model, if any since the last reset.
    pub fn last_context(&self) -> (r: Option<&AssembledContext>)
        ensures
            match r {
                Some(c) => self.last_context_spec() == Some(*c),
                None => self.last_context_spec() is None,
            },
    {
        match &self.last_context {
            Some(c) => Some(c),
            None => None,
        }
    }

    /// Builds the context for `user_input`: the last `window` recorded turns
    /// and the retrieved memories, fitted into `limit` tokens by evicting the
    /// oldest-stored episodic memories first and then the oldest turns (see
    /// [`fit_context_by_age`]); persona and semantic facts are never cut.
    pub fn prepare_context(
        &self,
        persona: &str,
        semantic_facts: &Vec<String>,
        episodic: Vec<EpisodicMemory>,
        window: usize,
        limit: usize,
        user_input: String,
    ) -> (r: AssembledContext)
        ensures
            exists|ordered: Seq<EpisodicMemory>|
                #![trigger oldest_first(ordered)]
                {
                    let recent = window_of(self.turns(), window as int);
                    let k1 = episodic_drop(
                        persona@,
                        views(semantic_facts@),
                        contents(ordered),
                        recent,
                        user_input@,
                        limit as int,
                        0,
                    );
                    let k2 = recent_drop(
                        persona@,
                        views(semantic_facts@),
                        contents(ordered).skip(k1),
                        recent,
                        user_input@,
                        limit as int,
                        0,
                    );
                    &&& oldest_first(ordered)
                    &&& ordered.map_values(|m: EpisodicMemory| memory_view(m)).to_multiset()
                        == episodic@.map_values(|m: EpisodicMemory| memory_view(m)).to_multiset()
                    &&& 0 <= k1 <= ordered.len()
                    &&& forall|i: int, j: int|
                        0 <= i < k1 <= j < ordered.len() ==> #[trigger] ordered[i].timestamp
                            <= #[trigger] ordered[j].timestamp
                    &&& r.persona.content@ == persona@
                    &&& r.semantic.content@ == crate::text::join(
                        views(semantic_facts@),
                        super::context::semantic_sep(),
                    )
                    &&& r.episodic.content@ == crate::text::join(
                        contents(ordered).skip(k1),
                        super::context::episodic_sep(),
                    )
                    &&& r.recent_turns@ == recent.skip(k2)
                    &&& r.user_input@ == user_input@
                },
    {
        let recent = recent_window(&self.recent_turns, window);
        let (ep, rc) = fit_context_by_age(persona, semantic_facts, episodic, recent, user_input.as_str(), limit);
        AssembledContext::assemble(persona, semantic_facts, &ep, rc, user_input)
    }

    /// Records a finished exchange: strips the `<defer>` tag from the reply,
    /// appends the user turn and the cleaned assistant turn, and keeps `ctx`
    /// as the last context. Returns the cleaned reply and the tag payload.
    pub fn record_exchange(&mut self, user_input: String, reply: &str, ctx: AssembledContext) -> (r:
        DeferExtract)
        ensures
            (r.cleaned@, match r.payload {
                Some(p) => Some(p@),
                None => None,
            }) == extract_spec(reply@),
            final(self).turns().len() == old(self).turns().len() + 2,
            final(self).turns().take(old(self).turns().len() as int) == old(self).turns(),
            final(self).turns()[old(self).turns().len() as int].role@ == "user"@,
            final(self).turns()[old(self).turns().len() as int].content@ == user_input@,
            final(self).turns().last().role@ == "assistant"@,
            final(self).turns().last().content@ == r.cleaned@,
            final(self).last_context_spec() == Some(ctx),
            final(self).session() == old(self).session(),
    {
        let extracted = extract_defer(reply);
        let ghost before = self.recent_turns@;
        self.recent_turns.push(Turn { role: crate::text::owned("user"), content: user_input });
        self.recent_turns.push(
            Turn { role: crate::text::owned("assistant"), content: extracted.cleaned.clone() },
        );
        assert(self.recent_turns@.take(before.len() as int) =~= before);
        self.last_context = Some(ctx);
        extracted
    }

    /// Forgets every turn and the last context (memory reset); the session id stays.
    pub fn reset(&mut self)
        ensures
            final(self).turns() == Seq::<Turn>::empty(),
            !final(self).has_last_context(),
            final(self).session() == old(self).session(),
    {
        self.recent_turns = Vec::new();
        self.last_context = None;
    }
}

/// The two turns of an exchange as written to episodic memory: the user turn
/// weighted by its length, the assistant turn at medium weight.
pub fn turns_to_store(user_input: &str, cleaned_reply: &str) -> (r: (StoredTurn, StoredTurn))
    ensures
        r.0.role@ == "user"@,
        r.0.content@ == user_input@,
        r.0.importance == (if word_count(user_input@) < 5 {
            ImportanceLevel::Low
        } else if word_count(user_input@) > 50 {
            ImportanceLevel::High
        } else {
            ImportanceLevel::Medium
        }),
        r.1.role@ == "assistant"@,
        r.1.content@ == cleaned_reply@,
        r.1.importance == ImportanceLevel::Medium,
{
    (
        StoredTurn {
            role: crate::text::owned("user"),
            content: crate::text::owned(user_input),
            importance: importance_heuristic(user_input),
        },
        StoredTurn {
            role: crate::text::owned("assistant"),
            content: crate::text::owned(cleaned_reply),
            importance: ImportanceLevel::Medium,
        },
    )
}

} // verus!
