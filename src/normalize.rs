//! The message-list normalization of the Anthropic-style target: `"system"`
//! turns become `"user"` turns, and each run of same-role turns is folded into
//! one turn whose contents are joined by a blank line.
use crate::prompt::{Message, MessageView};
use vstd::prelude::*;

verus! {

/// The views of a list of messages, in order.
pub open spec fn messages_view(v: Seq<Message>) -> Seq<MessageView> {
    v.map_values(|m: Message| m@)
}

/// The role a turn takes in the normalized list: `"system"` becomes `"user"`,
/// every other role stays.
pub open spec fn normalize_role(role: Seq<char>) -> Seq<char> {
    if role == "system"@ {
        "user"@
    } else {
        role
    }
}

/// One step of the fold: rewrite the role of `m`, then either append its
/// content to the last entry of `acc` (when that entry has the same role), or
/// push it as a new entry.
pub open spec fn merge_into(acc: Seq<MessageView>, m: MessageView) -> Seq<MessageView> {
    let role = normalize_role(m.role);
    if acc.len() > 0 && acc.last().role == role {
        acc.update(
            acc.len() - 1,
            MessageView { role, content: acc.last().content + "\n\n"@ + m.content },
        )
    } else {
        acc.push(MessageView { role, content: m.content })
    }
}

/// The normalized list: a left fold of [`merge_into`] over `s`, starting from
/// the empty list.
pub open spec fn normalize(s: Seq<MessageView>) -> Seq<MessageView>
    decreases s.len(),
{
    if s.len() == 0 {
        Seq::empty()
    } else {
        merge_into(normalize(s.drop_last()), s.last())
    }
}

/// No entry of `s` has the role `"system"`.
pub open spec fn no_system_role(s: Seq<MessageView>) -> bool {
    forall|i: int| 0 <= i < s.len() ==> s[i].role != "system"@
}

/// No two neighbouring entries of `s` share a role.
pub open spec fn adjacent_roles_differ(s: Seq<MessageView>) -> bool {
    forall|i: int| 0 <= i < s.len() - 1 ==> #[trigger] s[i].role != s[i + 1].role
}

/// A normalized list never holds a `"system"` turn, and no two of its
/// neighbouring turns share a role.
pub proof fn lemma_normalize_is_normal(s: Seq<MessageView>)
    ensures
        no_system_role(normalize(s)),
        adjacent_roles_differ(normalize(s)),
    decreases s.len(),
{
    reveal_strlit("system");
    reveal_strlit("user");
    if s.len() > 0 {
        lemma_normalize_is_normal(s.drop_last());
        let acc = normalize(s.drop_last());
        let r = normalize(s);
        assert(r == merge_into(acc, s.last()));
        assert("user"@.len() != "system"@.len());
        assert(normalize_role(s.last().role) != "system"@);
        assert forall|i: int| 0 <= i < r.len() - 1 implies #[trigger] r[i].role != r[i + 1].role by {
            if i + 1 < acc.len() {
                assert(r[i].role == acc[i].role);
                assert(r[i + 1].role == acc[i + 1].role);
            }
        }
    }
}

/// A list that already has no `"system"` turn and no two neighbouring turns of
/// one role is left as it is by normalization.
pub proof fn lemma_normalize_fixes_normal(s: Seq<MessageView>)
    requires
        no_system_role(s),
        adjacent_roles_differ(s),
    ensures
        normalize(s) == s,
    decreases s.len(),
{
    if s.len() > 0 {
        let init = s.drop_last();
        assert(adjacent_roles_differ(init)) by {
            assert forall|i: int| 0 <= i < init.len() - 1 implies #[trigger] init[i].role
                != init[i + 1].role by {
                assert(s[i].role != s[i + 1].role);
            }
        }
        lemma_normalize_fixes_normal(init);
        assert(normalize_role(s.last().role) == s.last().role);
        if init.len() > 0 {
            assert(s[init.len() - 1].role != s[init.len() as int].role);
        }
        assert(init.push(MessageView { role: s.last().role, content: s.last().content }) =~= s);
    }
}

/// Normalizing a normalized list changes nothing.
pub proof fn lemma_normalize_idempotent(s: Seq<MessageView>)
    ensures
        normalize(normalize(s)) == normalize(s),
{
    lemma_normalize_is_normal(s);
    lemma_normalize_fixes_normal(normalize(s));
}

/// Normalizes `messages` for the Anthropic-style target: each `"system"` role
/// becomes `"user"`, and each run of neighbouring turns that share a role
/// (after that rewrite) becomes one turn whose content is theirs joined by
/// `"\n\n"`, in order.
pub fn normalize_messages(messages: Vec<Message>) -> (r: Vec<Message>)
    ensures
        messages_view(r@) == normalize(messages_view(messages@)),
        no_system_role(messages_view(r@)),
        adjacent_roles_differ(messages_view(r@)),
{
    let system = String::from_str("system");
    let user = String::from_str("user");
    let ghost input = messages_view(messages@);
    let mut acc: Vec<Message> = Vec::new();
    let mut i: usize = 0;
    while i < messages.len()
        invariant
            i <= messages.len(),
            input == messages_view(messages@),
            system@ == "system"@,
            user@ == "user"@,
            messages_view(acc@) == normalize(input.subrange(0, i as int)),
        decreases messages.len() - i,
    {
        let role = if messages[i].role == system {
            user.clone()
        } else {
            messages[i].role.clone()
        };
        let content = messages[i].content.clone();
        let n = acc.len();
        let ghost before = messages_view(acc@);
        proof {
            assert(input.subrange(0, i + 1).drop_last() =~= input.subrange(0, i as int));
            assert(input.subrange(0, i + 1).last() == messages[i as int]@);
            assert(role@ == normalize_role(messages[i as int].role@));
        }
        if n > 0 && acc[n - 1].role == role {
            let mut last = acc.pop().unwrap();
            last.content.append("\n\n");
            last.content.append(content.as_str());
            acc.push(last);
            proof {
                assert(messages_view(acc@) =~= merge_into(before, messages[i as int]@));
            }
        } else {
            acc.push(Message { role, content });
            proof {
                assert(messages_view(acc@) =~= merge_into(before, messages[i as int]@));
            }
        }
        i += 1;
    }
    proof {
        assert(input.subrange(0, i as int) =~= input);
        lemma_normalize_is_normal(input);
    }
    acc
}

} // verus!
