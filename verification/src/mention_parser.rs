//! Typed, side-effect-free parser of member mentions, written `@agent:` and
//! the agent's identifier.
use crate::group_session::AgentGroupMembership;
use crate::ids::{prefixed_value, AgentId, ProjectId};
use crate::text::{has_prefix, starts_with_text, text_len, utf8_len};
use crate::words::{split_words, words};
use vstd::prelude::*;
use vstd::string::StrSliceExecFns;

verus! {

pub const MAX_MENTION_INPUT_BYTES: usize = 8 * 1024;

pub const MAX_MENTION_TARGETS: usize = 32;

#[derive(Debug, Clone, Copy, PartialEq, Eq, Structural)]
pub struct MentionTarget {
    pub agent_id: AgentId,
    pub project_id: ProjectId,
}

#[derive(Debug, Clone, PartialEq, Eq)]
pub struct MentionParseResult {
    pub targets: Vec<MentionTarget>,
    pub invocation_requested: bool,
}

#[derive(Debug, Clone, Copy, PartialEq, Eq, Structural)]
pub enum MentionError {
    InputTooLarge,
    UnknownMention,
    CrossProjectMention,
    TargetLimit,
}

impl MentionError {
    /// The human-readable description of the error.
    pub fn message(&self) -> (r: &'static str)
        ensures
            r@ == (match *self {
                MentionError::InputTooLarge => "mention input is too large"@,
                MentionError::UnknownMention => "mention target is unknown or malformed"@,
                MentionError::CrossProjectMention => "mention target is outside the parser project scope"@,
                MentionError::TargetLimit => "mention target limit is exceeded"@,
            }),
    {
        match self {
            MentionError::InputTooLarge => "mention input is too large",
            MentionError::UnknownMention => "mention target is unknown or malformed",
            MentionError::CrossProjectMention => "mention target is outside the parser project scope",
            MentionError::TargetLimit => "mention target limit is exceeded",
        }
    }
}

/// `s` without every leading `@agent:` mark.
pub open spec fn without_marks(s: Seq<char>) -> Seq<char>
    decreases s.len(),
{
    if starts_with_text(s, "@agent:"@) && "@agent:"@.len() > 0 {
        without_marks(s.skip("@agent:"@.len() as int))
    } else {
        s
    }
}

/// The punctuation that may surround a mention.
pub open spec fn is_mention_punct(c: char) -> bool {
    c == ',' || c == '.' || c == '!' || c == '?' || c == ')' || c == '('
}

pub open spec fn trim_punct_start(s: Seq<char>) -> Seq<char>
    decreases s.len(),
{
    if s.len() > 0 && is_mention_punct(s[0]) {
        trim_punct_start(s.drop_first())
    } else {
        s
    }
}

pub open spec fn trim_punct_end(s: Seq<char>) -> Seq<char>
    decreases s.len(),
{
    if s.len() > 0 && is_mention_punct(s.last()) {
        trim_punct_end(s.drop_last())
    } else {
        s
    }
}

/// The identifier text a mention word carries.
pub open spec fn mention_text(word: Seq<char>) -> Seq<char> {
    trim_punct_end(trim_punct_start(without_marks(word)))
}

/// The first membership of agent `id`, if any.
pub open spec fn membership_of(ms: Seq<AgentGroupMembership>, id: AgentId) -> Option<AgentGroupMembership>
    decreases ms.len(),
{
    if ms.len() == 0 {
        None
    } else if ms[0].agent_id == id {
        Some(ms[0])
    } else {
        membership_of(ms.drop_first(), id)
    }
}

/// The targets found in `ws`, the words still to read, after `found`: each
/// mention word must name a member of `project`; a member named again is
/// kept once, and no more than the limit are kept.
pub open spec fn mentions(
    project: ProjectId,
    ms: Seq<AgentGroupMembership>,
    ws: Seq<Seq<char>>,
    found: Seq<MentionTarget>,
) -> Result<Seq<MentionTarget>, MentionError>
    decreases ws.len(),
{
    if ws.len() == 0 {
        Ok(found)
    } else if !starts_with_text(ws[0], "@agent:"@) {
        mentions(project, ms, ws.drop_first(), found)
    } else {
        match prefixed_value(mention_text(ws[0]), "agent-"@) {
            None => Err(MentionError::UnknownMention),
            Some(v) => match membership_of(ms, AgentId(v)) {
                None => Err(MentionError::UnknownMention),
                Some(m) => if m.project_id != project {
                    Err(MentionError::CrossProjectMention)
                } else {
                    let t = MentionTarget { agent_id: AgentId(v), project_id: project };
                    if found.contains(t) {
                        mentions(project, ms, ws.drop_first(), found)
                    } else if found.len() >= MAX_MENTION_TARGETS {
                        Err(MentionError::TargetLimit)
                    } else {
                        mentions(project, ms, ws.drop_first(), found.push(t))
                    }
                },
            },
        }
    }
}

fn strip_marks(s: &str) -> (r: &str)
    ensures
        r@ == without_marks(s@),
{
    proof {
        reveal_strlit("@agent:");
    }
    let mut cur = s;
    while has_prefix(cur, "@agent:")
        invariant
            without_marks(s@) == without_marks(cur@),
            "@agent:"@.len() == 7,
        decreases cur@.len(),
    {
        let n = cur.unicode_len();
        let next = cur.substring_char(7, n);
        assert(next@ =~= cur@.skip(7));
        cur = next;
    }
    cur
}

fn trim_punct(s: &str) -> (r: &str)
    ensures
        r@ == trim_punct_end(trim_punct_start(s@)),
{
    let n = s.unicode_len();
    let mut i: usize = 0;
    assert(s@.skip(0) =~= s@);
    while i < n && is_punct(s.get_char(i))
        invariant
            n == s@.len(),
            i <= n,
            trim_punct_start(s@) == trim_punct_start(s@.skip(i as int)),
        decreases n - i,
    {
        assert(s@.skip(i as int).drop_first() =~= s@.skip(i + 1));
        i = i + 1;
    }
    let ghost head = s@.skip(i as int);
    let mut j: usize = n;
    assert(head.take((j - i) as int) =~= head);
    while j > i && is_punct(s.get_char(j - 1))
        invariant
            n == s@.len(),
            i <= j <= n,
            head == s@.skip(i as int),
            trim_punct_start(s@) == head,
            trim_punct_end(head) == trim_punct_end(head.take((j - i) as int)),
        decreases j - i,
    {
        assert(head.take((j - i) as int).drop_last() =~= head.take((j - 1 - i) as int));
        assert(head.take((j - i) as int).last() == s@[j - 1]);
        j = j - 1;
    }
    let r = s.substring_char(i, j);
    assert(r@ =~= head.take((j - i) as int));
    r
}

fn is_punct(c: char) -> (r: bool)
    ensures
        r == is_mention_punct(c),
{
    c == ',' || c == '.' || c == '!' || c == '?' || c == ')' || c == '('
}

/// Reads members' mentions in a project's text.
#[derive(Debug, Clone)]
pub struct MentionParser {
    project_id: ProjectId,
    memberships: Vec<AgentGroupMembership>,
}

impl MentionParser {
    pub closed spec fn project_of(&self) -> ProjectId {
        self.project_id
    }

    pub closed spec fn memberships_of(&self) -> Seq<AgentGroupMembership> {
        self.memberships@
    }

    pub fn new(project_id: ProjectId, memberships: Vec<AgentGroupMembership>) -> (r: Self)
        ensures
            r.project_of() == project_id,
            r.memberships_of() == memberships@,
    {
        MentionParser { project_id, memberships }
    }

    fn membership(&self, id: AgentId) -> (r: Option<AgentGroupMembership>)
        ensures
            r == membership_of(self.memberships@, id),
    {
        let mut k: usize = 0;
        assert(self.memberships@.skip(0) =~= self.memberships@);
        while k < self.memberships.len()
            invariant
                k <= self.memberships@.len(),
                membership_of(self.memberships@, id) == membership_of(self.memberships@.skip(k as int), id),
            decreases self.memberships@.len() - k,
        {
            assert(self.memberships@.skip(k as int).drop_first() =~= self.memberships@.skip(k + 1));
            if self.memberships[k].agent_id == id {
                return Some(self.memberships[k]);
            }
            k = k + 1;
        }
        None
    }

    /// The distinct members the text mentions, in order of first mention;
    /// refused when the text is too large, a mention is malformed or names a
    /// non-member, a member of another project, or too many members.
    pub fn parse(&self, input: &str) -> (r: Result<MentionParseResult, MentionError>)
        ensures
            utf8_len(input@) > MAX_MENTION_INPUT_BYTES ==> r == Err::<MentionParseResult, MentionError>(
                MentionError::InputTooLarge,
            ),
            utf8_len(input@) <= MAX_MENTION_INPUT_BYTES ==> match mentions(
                self.project_of(),
                self.memberships_of(),
                words(input@),
                seq![],
            ) {
                Ok(ts) => r matches Ok(res) && res.targets@ == ts && !res.invocation_requested,
                Err(e) => r == Err::<MentionParseResult, MentionError>(e),
            },
    {
        if text_len(input) > MAX_MENTION_INPUT_BYTES {
            return Err(MentionError::InputTooLarge);
        }
        proof {
            reveal_strlit("@agent:");
        }
        let ws = split_words(input);
        let ghost all = words(input@);
        let mut targets: Vec<MentionTarget> = Vec::new();
        let mut k: usize = 0;
        assert(all.skip(0) =~= all);
        while k < ws.len()
            invariant
                ws@.len() == all.len(),
                forall|m: int| 0 <= m < ws@.len() ==> #[trigger] ws@[m]@ == all[m],
                k <= ws@.len(),
                utf8_len(input@) <= MAX_MENTION_INPUT_BYTES,
                all == words(input@),
                "@agent:"@.len() == 7,
                forall|m: int| 0 <= m < targets@.len() ==> (#[trigger] targets@[m]).project_id == self.project_id,
                mentions(self.project_id, self.memberships@, all, seq![]) == mentions(
                    self.project_id,
                    self.memberships@,
                    all.skip(k as int),
                    targets@,
                ),
            decreases ws@.len() - k,
        {
            let ghost rest = all.skip(k as int);
            assert(rest[0] == all[k as int]);
            assert(rest.drop_first() =~= all.skip(k + 1));
            let word = ws[k].as_str();
            if has_prefix(word, "@agent:") {
                let raw = trim_punct(strip_marks(word));
                assert(raw@ == mention_text(rest[0]));
                assert(starts_with_text(rest[0], "@agent:"@));
                let id = match AgentId::parse(raw) {
                    Some(id) => id,
                    None => {
                        assert(prefixed_value(mention_text(rest[0]), "agent-"@) is None);
                        assert(mentions(self.project_id, self.memberships@, rest, targets@) == Err::<
                            Seq<MentionTarget>,
                            MentionError,
                        >(MentionError::UnknownMention));
                        return Err(MentionError::UnknownMention);
                    },
                };
                assert(prefixed_value(mention_text(rest[0]), "agent-"@) == Some(id.0));
                let membership = match self.membership(id) {
                    Some(m) => m,
                    None => {
                        assert(mentions(self.project_id, self.memberships@, rest, targets@) == Err::<
                            Seq<MentionTarget>,
                            MentionError,
                        >(MentionError::UnknownMention));
                        return Err(MentionError::UnknownMention);
                    },
                };
                if membership.project_id != self.project_id {
                    assert(mentions(self.project_id, self.memberships@, rest, targets@) == Err::<
                        Seq<MentionTarget>,
                        MentionError,
                    >(MentionError::CrossProjectMention));
                    return Err(MentionError::CrossProjectMention);
                }
                let target = MentionTarget { agent_id: id, project_id: self.project_id };
                let mut seen = false;
                let mut m: usize = 0;
                while m < targets.len()
                    invariant
                        m <= targets@.len(),
                        target.agent_id == id,
                        target.project_id == self.project_id,
                        seen == exists|x: int| 0 <= x < m && #[trigger] targets@[x] == target,
                    decreases targets@.len() - m,
                {
                    if targets[m].agent_id == id && targets[m].project_id == self.project_id {
                        assert(targets@[m as int] == target);
                        seen = true;
                    } else {
                        assert(targets@[m as int] != target);
                    }
                    m = m + 1;
                }
                assert(seen == targets@.contains(target));
                if !seen {
                    if targets.len() >= MAX_MENTION_TARGETS {
                        return Err(MentionError::TargetLimit);
                    }
                    targets.push(target);
                }
            }
            k = k + 1;
        }
        assert(all.skip(k as int) =~= Seq::<Seq<char>>::empty());
        Ok(MentionParseResult { targets, invocation_requested: false })
    }
}

/// Parsing never yields a member twice, never a member of another project,
/// and never more than the target limit.
pub proof fn law_mentions_are_distinct_members_of_the_project(
    project: ProjectId,
    ms: Seq<AgentGroupMembership>,
    ws: Seq<Seq<char>>,
    found: Seq<MentionTarget>,
)
    requires
        found.no_duplicates(),
        found.len() <= MAX_MENTION_TARGETS,
        forall|i: int| 0 <= i < found.len() ==> (#[trigger] found[i]).project_id == project,
    ensures
        mentions(project, ms, ws, found) matches Ok(ts) ==> {
            &&& ts.no_duplicates()
            &&& ts.len() <= MAX_MENTION_TARGETS
            &&& forall|i: int| 0 <= i < ts.len() ==> (#[trigger] ts[i]).project_id == project
        },
    decreases ws.len(),
{
    if ws.len() > 0 {
        if starts_with_text(ws[0], "@agent:"@) {
            match prefixed_value(mention_text(ws[0]), "agent-"@) {
                None => {},
                Some(v) => match membership_of(ms, AgentId(v)) {
                    None => {},
                    Some(m) => if m.project_id == project {
                        let t = MentionTarget { agent_id: AgentId(v), project_id: project };
                        if found.contains(t) {
                            law_mentions_are_distinct_members_of_the_project(project, ms, ws.drop_first(), found);
                        } else if found.len() < MAX_MENTION_TARGETS {
                            let f2 = found.push(t);
                            assert forall|i: int, j: int| 0 <= i < j < f2.len() implies f2[i] != f2[j] by {
                                if j == found.len() {
                                    assert(f2[i] == found[i]);
                                }
                            }
                            assert forall|i: int| 0 <= i < f2.len() implies (#[trigger] f2[i]).project_id == project by {
                                if i < found.len() {
                                    assert(f2[i] == found[i]);
                                }
                            }
                            law_mentions_are_distinct_members_of_the_project(project, ms, ws.drop_first(), f2);
                        }
                    },
                },
            }
        } else {
            law_mentions_are_distinct_members_of_the_project(project, ms, ws.drop_first(), found);
        }
    }
}

} // verus!
