//! Which players get a box: a player is drawn when it has a character, and
//! the character has a head and a torso (a "Torso", or, for the newer body
//! type, an "UpperTorso"). Each lookup is made by the caller; the probe says
//! which lookup comes next and when the player is ready or skipped.
use vstd::prelude::*;

verus! {

/// A body part looked up among a character's children.
#[derive(PartialEq, Eq, Structural, Clone, Copy, Debug)]
pub enum BodyPart {
    Head,
    Torso,
    UpperTorso,
}

/// The name of the child that holds a body part.
pub open spec fn part_name(part: BodyPart) -> Seq<char> {
    match part {
        BodyPart::Head => "Head"@,
        BodyPart::Torso => "Torso"@,
        BodyPart::UpperTorso => "UpperTorso"@,
    }
}

/// The name of the child that holds `part`.
pub fn body_part_name(part: BodyPart) -> (r: &'static str)
    ensures
        r@ == part_name(part),
{
    match part {
        BodyPart::Head => "Head",
        BodyPart::Torso => "Torso",
        BodyPart::UpperTorso => "UpperTorso",
    }
}

/// What the probe of a player needs next, or what it found.
#[derive(PartialEq, Eq, Structural, Clone, Copy, Debug)]
pub enum ProbeStep {
    /// Read the character of this player.
    ReadCharacter(usize),
    /// Find the child holding this body part of this character.
    FindChild(usize, BodyPart),
    /// The player is not drawn.
    Skip,
    /// The player is drawn from these two parts.
    Ready { head: usize, torso: usize },
}

/// Where the probe of `player` stands once the lookups have given `answers`
/// (zero meaning "not there"): the character, then the head, then the torso,
/// then, if there was no torso, the upper torso.
pub open spec fn probe_step(player: usize, answers: Seq<usize>) -> ProbeStep {
    if player == 0 {
        ProbeStep::Skip
    } else if answers.len() == 0 {
        ProbeStep::ReadCharacter(player)
    } else if answers[0] == 0 {
        ProbeStep::Skip
    } else if answers.len() == 1 {
        ProbeStep::FindChild(answers[0], BodyPart::Head)
    } else if answers[1] == 0 {
        ProbeStep::Skip
    } else if answers.len() == 2 {
        ProbeStep::FindChild(answers[0], BodyPart::Torso)
    } else if answers[2] != 0 {
        ProbeStep::Ready { head: answers[1], torso: answers[2] }
    } else if answers.len() == 3 {
        ProbeStep::FindChild(answers[0], BodyPart::UpperTorso)
    } else if answers[3] != 0 {
        ProbeStep::Ready { head: answers[1], torso: answers[3] }
    } else {
        ProbeStep::Skip
    }
}

/// Whether the probe still waits for a lookup.
pub open spec fn is_waiting(step: ProbeStep) -> bool {
    step is ReadCharacter || step is FindChild
}

/// The probe of one player.
pub struct PlayerProbe {
    pub player: usize,
    pub step: ProbeStep,
    /// The head found, once it is.
    pub head: usize,
    /// What the lookups gave so far.
    pub answers: Ghost<Seq<usize>>,
}

impl PlayerProbe {
    /// The step agrees with the answers, of which there are at most four.
    pub open spec fn wf(&self) -> bool {
        &&& self.step == probe_step(self.player, self.answers@)
        &&& self.answers@.len() <= 4
        &&& is_waiting(self.step) ==> self.answers@.len() < 4
        &&& self.answers@.len() >= 2 ==> self.head == self.answers@[1]
    }

    /// The probe of `player` before any lookup; the player at address zero
    /// is skipped at once.
    pub fn new(player: usize) -> (r: Self)
        ensures
            r.wf(),
            r.player == player,
            r.answers@ == Seq::<usize>::empty(),
    {
        let step = if player == 0 {
            ProbeStep::Skip
        } else {
            ProbeStep::ReadCharacter(player)
        };
        PlayerProbe { player, step, head: 0, answers: Ghost(Seq::empty()) }
    }

    /// Takes what the lookup the probe asked for gave (zero when nothing was
    /// found) and moves to the next step.
    pub fn answer(&mut self, value: usize)
        requires
            old(self).wf(),
            is_waiting(old(self).step),
        ensures
            final(self).wf(),
            final(self).player == old(self).player,
            final(self).answers@ == old(self).answers@.push(value),
    {
        let ghost before = self.answers@;
        self.answers = Ghost(before.push(value));
        let next = match self.step {
            ProbeStep::ReadCharacter(_) => {
                if value == 0 {
                    ProbeStep::Skip
                } else {
                    ProbeStep::FindChild(value, BodyPart::Head)
                }
            },
            ProbeStep::FindChild(character, BodyPart::Head) => {
                self.head = value;
                if value == 0 {
                    ProbeStep::Skip
                } else {
                    ProbeStep::FindChild(character, BodyPart::Torso)
                }
            },
            ProbeStep::FindChild(character, BodyPart::Torso) => {
                if value != 0 {
                    ProbeStep::Ready { head: self.head, torso: value }
                } else {
                    ProbeStep::FindChild(character, BodyPart::UpperTorso)
                }
            },
            ProbeStep::FindChild(_, BodyPart::UpperTorso) => {
                if value != 0 {
                    ProbeStep::Ready { head: self.head, torso: value }
                } else {
                    ProbeStep::Skip
                }
            },
            _ => ProbeStep::Skip,
        };
        self.step = next;
    }
}

/// A player is drawn only when its character, its head and a torso were all
/// found; the torso is the "Torso" child when there is one and the
/// "UpperTorso" child otherwise.
pub proof fn lemma_ready_means_found(player: usize, answers: Seq<usize>)
    requires
        probe_step(player, answers) is Ready,
    ensures
        player != 0,
        answers.len() >= 3,
        answers[0] != 0,
        answers[1] != 0,
        probe_step(player, answers)->head == answers[1],
        answers[2] != 0 ==> probe_step(player, answers)->torso == answers[2],
        answers[2] == 0 ==> answers.len() >= 4 && answers[3] != 0
            && probe_step(player, answers)->torso == answers[3],
{
}

/// The probe of a player ends after at most four lookups: with four
/// answers it is ready or skipped.
pub proof fn lemma_probe_ends(player: usize, answers: Seq<usize>)
    requires
        answers.len() >= 4,
    ensures
        !is_waiting(probe_step(player, answers)),
{
}

} // verus!
