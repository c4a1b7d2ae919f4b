//! The outcome of one request and the text that reports it to the requester.

use crate::roles::{administrator_mentions, mention_admins, Role};
use crate::text::{decimal, joined, lemma_joined_push, render_decimal, texts_model};
use crate::value::{values_model, Value, ValueModel};
use vstd::prelude::*;

verus! {

/// What became of the addresses of one request.
///
/// `succeeded` holds each address that was paid, with the values sent;
/// `failed` each address whose transfer failed, with the error's text;
/// `unparsed` each string that was no well-formed address; `remaining` each
/// address that was left out because the request held too many.
#[derive(Debug)]
pub struct Response {
    pub succeeded: Vec<(String, Vec<Value>)>,
    pub failed: Vec<(String, String)>,
    pub unparsed: Vec<String>,
    pub remaining: Vec<String>,
}

/// A response as contracts see it: each list as a sequence of plain texts.
pub struct ResponseModel {
    pub succeeded: Seq<(Seq<char>, Seq<ValueModel>)>,
    pub failed: Seq<(Seq<char>, Seq<char>)>,
    pub unparsed: Seq<Seq<char>>,
    pub remaining: Seq<Seq<char>>,
}

impl View for Response {
    type V = ResponseModel;

    open spec fn view(&self) -> ResponseModel {
        ResponseModel {
            succeeded: Seq::new(
                self.succeeded@.len(),
                |i: int| (self.succeeded@[i].0@, values_model(self.succeeded@[i].1@)),
            ),
            failed: Seq::new(
                self.failed@.len(),
                |i: int| (self.failed@[i].0@, self.failed@[i].1@),
            ),
            unparsed: texts_model(self.unparsed@),
            remaining: texts_model(self.remaining@),
        }
    }
}

/// One line of a reply that quotes `item` between backticks.
pub open spec fn quoted_line(item: Seq<char>) -> Seq<char> {
    seq!['\n', '`'] + item + seq!['`']
}

/// One line of a reply that quotes `address` and gives the `error` it met.
pub open spec fn failure_line(address: Seq<char>, error: Seq<char>) -> Seq<char> {
    seq!['\n', '`'] + address + "` (error: "@ + error + seq![')']
}

/// The line that calls the administrators, mentioned by `mentions`, to a failure.
pub open spec fn escalation_line(mentions: Seq<char>) -> Seq<char> {
    seq!['\n'] + mentions + ": you may want to investigate this error :)"@
}

pub open spec fn succeeded_header() -> Seq<char> {
    "Successfully sent tokens to the following addresses:"@
}

pub open spec fn failed_header() -> Seq<char> {
    "Failed to send tokens to the following addresses:"@
}

pub open spec fn unparsed_header() -> Seq<char> {
    "\nThe following _look like_ Penumbra addresses, but are invalid (maybe a typo or old address version?):"@
}

/// The heading of the list of addresses left out, `limit` being the number of
/// addresses that one request may have served.
pub open spec fn remaining_header(limit: nat) -> Seq<char> {
    "\nI'm only allowed to send tokens to "@ + decimal(limit)
        + " addresses at a time; try again later to get tokens for the following addresses:"@
}

impl ResponseModel {
    /// The number of entries of the request that were taken up: paid, failed
    /// or found malformed.
    pub open spec fn processed(self) -> nat {
        self.succeeded.len() + self.failed.len() + self.unparsed.len()
    }

    pub open spec fn succeeded_lines(self) -> Seq<Seq<char>> {
        Seq::new(self.succeeded.len(), |i: int| quoted_line(self.succeeded[i].0))
    }

    pub open spec fn failed_lines(self) -> Seq<Seq<char>> {
        Seq::new(self.failed.len(), |i: int| failure_line(self.failed[i].0, self.failed[i].1))
    }

    pub open spec fn unparsed_lines(self) -> Seq<Seq<char>> {
        Seq::new(self.unparsed.len(), |i: int| quoted_line(self.unparsed[i]))
    }

    pub open spec fn remaining_lines(self) -> Seq<Seq<char>> {
        Seq::new(self.remaining.len(), |i: int| quoted_line(self.remaining[i]))
    }

    /// The part of the summary on the addresses that were paid: nothing if
    /// there is none, else a heading and one line for each.
    pub open spec fn succeeded_section(self) -> Seq<char> {
        if self.succeeded.len() == 0 {
            Seq::empty()
        } else {
            succeeded_header() + joined(self.succeeded_lines())
        }
    }

    /// What stands between the part on the paid addresses and the heading of
    /// the failures: a line end where an address was paid, nothing otherwise.
    pub open spec fn failed_lead(self) -> Seq<char> {
        if self.succeeded.len() == 0 {
            Seq::empty()
        } else {
            seq!['\n']
        }
    }

    /// The part of the summary on the transfers that failed: nothing if there
    /// is none, else a heading, one line for each, and a line that calls the
    /// administrators among `roles`. The heading starts a line of its own:
    /// behind the part on the paid addresses it begins with a line end.
    pub open spec fn failed_section(self, roles: Seq<Role>) -> Seq<char> {
        if self.failed.len() == 0 {
            Seq::empty()
        } else {
            self.failed_lead() + failed_header() + joined(self.failed_lines()) + escalation_line(
                administrator_mentions(roles),
            )
        }
    }

    /// The part of the summary on the malformed addresses: nothing if there
    /// is none, else a heading and one line for each.
    pub open spec fn unparsed_section(self) -> Seq<char> {
        if self.unparsed.len() == 0 {
            Seq::empty()
        } else {
            unparsed_header() + joined(self.unparsed_lines())
        }
    }

    /// The part of the summary on the addresses left out: nothing if there is
    /// none, else a heading that names the limit and one line for each.
    pub open spec fn remaining_section(self) -> Seq<char> {
        if self.remaining.len() == 0 {
            Seq::empty()
        } else {
            remaining_header(self.processed()) + joined(self.remaining_lines())
        }
    }

    /// The whole summary: the four parts in their fixed order.
    pub open spec fn summary_text(self, roles: Seq<Role>) -> Seq<char> {
        self.succeeded_section() + self.failed_section(roles) + self.unparsed_section()
            + self.remaining_section()
    }
}

/// In a summary each part is there exactly when its list holds something,
/// and the parts that are there stand in the order succeeded, failed,
/// unparsed, remaining.
pub proof fn lemma_sections_follow_lists(response: ResponseModel, roles: Seq<Role>)
    ensures
        response.summary_text(roles) == response.succeeded_section() + response.failed_section(
            roles,
        ) + response.unparsed_section() + response.remaining_section(),
        response.succeeded_section().len() > 0 <==> response.succeeded.len() > 0,
        response.failed_section(roles).len() > 0 <==> response.failed.len() > 0,
        response.unparsed_section().len() > 0 <==> response.unparsed.len() > 0,
        response.remaining_section().len() > 0 <==> response.remaining.len() > 0,
{
    reveal_strlit("Successfully sent tokens to the following addresses:");
    reveal_strlit("Failed to send tokens to the following addresses:");
    reveal_strlit(
        "\nThe following _look like_ Penumbra addresses, but are invalid (maybe a typo or old address version?):",
    );
    reveal_strlit("\nI'm only allowed to send tokens to ");
}

/// Where addresses were paid and transfers failed, the heading of the
/// failures starts a line of its own: the text goes on behind the last paid
/// address with a line end, and then with the heading.
pub proof fn lemma_failures_start_a_line(response: ResponseModel, roles: Seq<Role>)
    requires
        response.succeeded.len() > 0,
        response.failed.len() > 0,
    ensures
        response.summary_text(roles) == succeeded_header() + joined(response.succeeded_lines())
            + seq!['\n'] + failed_header() + joined(response.failed_lines()) + escalation_line(
            administrator_mentions(roles),
        ) + response.unparsed_section() + response.remaining_section(),
{
    assert(response.summary_text(roles) =~= succeeded_header() + joined(
        response.succeeded_lines(),
    ) + seq!['\n'] + failed_header() + joined(response.failed_lines()) + escalation_line(
        administrator_mentions(roles),
    ) + response.unparsed_section() + response.remaining_section());
}

impl Response {
    /// Renders the summary that is sent back to the requester. `roles` are
    /// the roles of the server the request came from; the administrators
    /// among them are mentioned when a transfer failed.
    pub fn summary(&self, roles: &Vec<Role>) -> (text: String)
        ensures
            text@ == self@.summary_text(roles@),
    {
        let mut text = String::new();
        self.write_succeeded(&mut text);
        self.write_failed(&mut text, roles);
        self.write_unparsed(&mut text);
        self.write_remaining(&mut text);
        assert(text@ =~= self@.summary_text(roles@));
        text
    }

    fn write_succeeded(&self, text: &mut String)
        ensures
            final(text)@ == old(text)@ + self@.succeeded_section(),
    {
        if self.succeeded.len() > 0 {
            text.append("Successfully sent tokens to the following addresses:");
            let ghost lines = self@.succeeded_lines();
            let mut i: usize = 0;
            while i < self.succeeded.len()
                invariant
                    i <= self.succeeded@.len(),
                    lines == self@.succeeded_lines(),
                    text@ == old(text)@ + succeeded_header() + joined(lines.take(i as int)),
                decreases self.succeeded.len() - i,
            {
                write_quoted(text, self.succeeded[i].0.as_str());
                proof {
                    assert(lines.take(i + 1) =~= lines.take(i as int).push(lines[i as int]));
                    lemma_joined_push(lines.take(i as int), lines[i as int]);
                }
                i += 1;
            }
            assert(lines.take(lines.len() as int) =~= lines);
        }
    }

    fn write_failed(&self, text: &mut String, roles: &Vec<Role>)
        ensures
            final(text)@ == old(text)@ + self@.failed_section(roles@),
    {
        if self.failed.len() > 0 {
            if self.succeeded.len() > 0 {
                text.append("\n");
                proof {
                    reveal_strlit("\n");
                    assert("\n"@ =~= seq!['\n']);
                }
            }
            assert(text@ =~= old(text)@ + self@.failed_lead());
            text.append("Failed to send tokens to the following addresses:");
            let ghost lines = self@.failed_lines();
            let mut i: usize = 0;
            while i < self.failed.len()
                invariant
                    i <= self.failed@.len(),
                    lines == self@.failed_lines(),
                    text@ == old(text)@ + self@.failed_lead() + failed_header() + joined(
                        lines.take(i as int),
                    ),
                decreases self.failed.len() - i,
            {
                let ghost before = text@;
                text.append("\n`");
                text.append(self.failed[i].0.as_str());
                text.append("` (error: ");
                text.append(self.failed[i].1.as_str());
                text.append(")");
                proof {
                    reveal_strlit("\n`");
                    reveal_strlit(")");
                    assert(text@ =~= before + failure_line(
                        self.failed@[i as int].0@,
                        self.failed@[i as int].1@,
                    ));
                    assert(lines.take(i + 1) =~= lines.take(i as int).push(lines[i as int]));
                    lemma_joined_push(lines.take(i as int), lines[i as int]);
                }
                i += 1;
            }
            assert(lines.take(lines.len() as int) =~= lines);
            let ghost before = text@;
            let mentions = mention_admins(roles);
            text.append("\n");
            text.append(mentions.as_str());
            text.append(": you may want to investigate this error :)");
            proof {
                reveal_strlit("\n");
                assert(text@ =~= before + escalation_line(administrator_mentions(roles@)));
            }
        }
    }

    fn write_unparsed(&self, text: &mut String)
        ensures
            final(text)@ == old(text)@ + self@.unparsed_section(),
    {
        if self.unparsed.len() > 0 {
            text.append(
                "\nThe following _look like_ Penumbra addresses, but are invalid (maybe a typo or old address version?):",
            );
            let ghost lines = self@.unparsed_lines();
            let mut i: usize = 0;
            while i < self.unparsed.len()
                invariant
                    i <= self.unparsed@.len(),
                    lines == self@.unparsed_lines(),
                    text@ == old(text)@ + unparsed_header() + joined(lines.take(i as int)),
                decreases self.unparsed.len() - i,
            {
                write_quoted(text, self.unparsed[i].as_str());
                proof {
                    assert(lines.take(i + 1) =~= lines.take(i as int).push(lines[i as int]));
                    lemma_joined_push(lines.take(i as int), lines[i as int]);
                }
                i += 1;
            }
            assert(lines.take(lines.len() as int) =~= lines);
        }
    }

    fn write_remaining(&self, text: &mut String)
        ensures
            final(text)@ == old(text)@ + self@.remaining_section(),
    {
        if self.remaining.len() > 0 {
            let limit: u128 = self.succeeded.len() as u128 + self.failed.len() as u128
                + self.unparsed.len() as u128;
            let number = render_decimal(limit);
            let ghost start = text@;
            text.append("\nI'm only allowed to send tokens to ");
            text.append(number.as_str());
            text.append(
                " addresses at a time; try again later to get tokens for the following addresses:",
            );
            assert(text@ =~= start + remaining_header(self@.processed()));
            let ghost lines = self@.remaining_lines();
            let mut i: usize = 0;
            while i < self.remaining.len()
                invariant
                    i <= self.remaining@.len(),
                    lines == self@.remaining_lines(),
                    text@ == old(text)@ + remaining_header(self@.processed()) + joined(
                        lines.take(i as int),
                    ),
                decreases self.remaining.len() - i,
            {
                write_quoted(text, self.remaining[i].as_str());
                proof {
                    assert(lines.take(i + 1) =~= lines.take(i as int).push(lines[i as int]));
                    lemma_joined_push(lines.take(i as int), lines[i as int]);
                }
                i += 1;
            }
            assert(lines.take(lines.len() as int) =~= lines);
        }
    }
}

fn write_quoted(text: &mut String, item: &str)
    ensures
        final(text)@ == old(text)@ + quoted_line(item@),
{
    text.append("\n`");
    text.append(item);
    text.append("`");
    proof {
        reveal_strlit("\n`");
        reveal_strlit("`");
        assert(text@ =~= old(text)@ + quoted_line(item@));
    }
}

} // verus!
