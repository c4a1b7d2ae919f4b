//! Roles of the chat server, as far as a reply needs them: which roles are
//! administrators, and how a role is mentioned in a message.

use crate::text::{decimal, lemma_spaced_push, spaced};
use vstd::prelude::*;

verus! {

/// A role of the chat server: its identifier and its permission bits.
#[derive(Clone, Copy, Debug, PartialEq, Eq, Structural)]
pub struct Role {
    pub id: u64,
    pub permissions: u64,
}

/// The permission bit that makes a role an administrator.
pub const ADMINISTRATOR_BIT: u64 = 8;

/// The permission bits `permissions` include the administrator bit.
pub open spec fn is_administrator(permissions: u64) -> bool {
    permissions & ADMINISTRATOR_BIT == ADMINISTRATOR_BIT
}

/// The text that mentions the role `id` in a message: `<@&`, the identifier
/// in decimal, and `>`.
pub open spec fn mention_text(id: u64) -> Seq<char> {
    seq!['<', '@', '&'] + decimal(id as nat) + seq!['>']
}

/// The identifiers of the administrator roles among `roles`, in their order.
pub open spec fn administrator_ids(roles: Seq<Role>) -> Seq<u64>
    decreases roles.len(),
{
    if roles.len() == 0 {
        Seq::empty()
    } else if is_administrator(roles.last().permissions) {
        administrator_ids(roles.drop_last()).push(roles.last().id)
    } else {
        administrator_ids(roles.drop_last())
    }
}

/// The mentions of the roles `ids`, in their order.
pub open spec fn mention_texts(ids: Seq<u64>) -> Seq<Seq<char>> {
    Seq::new(ids.len(), |i: int| mention_text(ids[i]))
}

/// The mentions of all administrator roles among `roles`, in their order,
/// separated by single spaces.
pub open spec fn administrator_mentions(roles: Seq<Role>) -> Seq<char> {
    spaced(mention_texts(administrator_ids(roles)))
}

/// Calls `serenity::model::permissions::Permissions::administrator` on the
/// permission set made of `permissions` by `from_bits_truncate`. Trusted: the
/// answer is whether bit 3, the administrator flag, is set.
#[verifier::external_body]
fn grants_administrator(permissions: u64) -> (yes: bool)
    ensures
        yes == is_administrator(permissions),
{
    serenity::model::permissions::Permissions::from_bits_truncate(permissions).administrator()
}

/// Calls `serenity::model::mention::Mentionable::mention` on the role
/// identifier `id` and renders the mention as text. Trusted: the text is
/// `<@&`, the identifier in decimal, and `>`.
#[verifier::external_body]
fn role_mention(id: u64) -> (text: String)
    ensures
        text@ == mention_text(id),
{
    serenity::model::mention::Mentionable::mention(&serenity::model::id::RoleId(id)).to_string()
}

/// Whether `role` is an administrator.
pub fn role_is_administrator(role: &Role) -> (yes: bool)
    ensures
        yes == is_administrator(role.permissions),
{
    grants_administrator(role.permissions)
}

/// Mentions every administrator role among `roles`, in the order given, with
/// a single space between two mentions.
pub fn mention_admins(roles: &Vec<Role>) -> (text: String)
    ensures
        text@ == administrator_mentions(roles@),
{
    let mut text = String::new();
    let mut first = true;
    let mut i: usize = 0;
    while i < roles.len()
        invariant
            i <= roles.len(),
            first == (administrator_ids(roles@.take(i as int)).len() == 0),
            text@ == administrator_mentions(roles@.take(i as int)),
        decreases roles.len() - i,
    {
        let role = roles[i];
        proof {
            let before = roles@.take(i as int);
            let now = roles@.take(i + 1);
            assert(now.drop_last() =~= before);
            assert(now.last() == role);
            if is_administrator(role.permissions) {
                let ids = administrator_ids(before);
                assert(mention_texts(ids.push(role.id)) =~= mention_texts(ids).push(
                    mention_text(role.id),
                ));
                lemma_spaced_push(mention_texts(ids), mention_text(role.id));
            }
        }
        if grants_administrator(role.permissions) {
            if !first {
                text.append(" ");
                proof {
                    reveal_strlit(" ");
                    assert(" "@ =~= seq![' ']);
                }
            }
            let mention = role_mention(role.id);
            text.append(mention.as_str());
            first = false;
        }
        i += 1;
    }
    assert(roles@.take(roles.len() as int) =~= roles@);
    text
}

} // verus!
