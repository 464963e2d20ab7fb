//! Names of the files that are written.

use vstd::prelude::*;

use crate::fields::{all_digits, digits_value, is_digit};
use crate::overlay::{cut, lemma_seen, Outcome, OutcomeModel, Overlay, OverlayModel, Scene};
use crate::pixels::Shot;

verus! {

/// Whether a text says `lo` to `hi` at `i`, in two digits.
pub open spec fn says(s: Seq<char>, i: int, lo: int, hi: int) -> bool {
    &&& is_digit(s[i])
    &&& is_digit(s[i + 1])
    &&& lo <= digits_value(s.subrange(i, i + 2)) <= hi
}

/// Whether a text is a year: four digits, or a sign and four at least.
pub open spec fn is_year(s: Seq<char>) -> bool {
    if s.len() > 0 && (s[0] == '+' || s[0] == '-') {
        s.len() >= 5 && all_digits(s.drop_first())
    } else {
        s.len() == 4 && all_digits(s)
    }
}

/// Whether a text is a moment such as `2024-05-06_07-08-09`: year, month, day,
/// hour, minute and second. A leap second is the sixtieth.
pub open spec fn is_stamp(s: Seq<char>) -> bool {
    let rest = s.skip(s.len() - 15);
    &&& s.len() > 15
    &&& is_year(s.take(s.len() - 15))
    &&& rest[0] == '-' && says(rest, 1, 1, 12)
    &&& rest[3] == '-' && says(rest, 4, 1, 31)
    &&& rest[6] == '_' && says(rest, 7, 0, 23)
    &&& rest[9] == '-' && says(rest, 10, 0, 59)
    &&& rest[12] == '-' && says(rest, 13, 0, 60)
}

/// The local time, as `chrono::Local::now` gives it and
/// `chrono::DateTime::format` writes it: the year in four digits, or with a
/// sign where these do not suffice, and month, day, hour, minute and second in
/// two digits each. Which moment it is depends on the clock and on the
/// machine's time zone, so nothing is claimed of that.
#[verifier::external_body]
fn local_stamp() -> (s: String)
    ensures
        is_stamp(s@),
{
    chrono::Local::now().format("%Y-%m-%d_%H-%M-%S").to_string()
}

/// The name of a picture's file that was taken at a time.
pub open spec fn picture_name(stamp: Seq<char>) -> Seq<char> {
    "pashari_"@ + stamp + ".png"@
}

/// The name of a picture's file that was taken at a time.
pub fn default_name(stamp: &str) -> (name: String)
    ensures
        name@ == picture_name(stamp@),
{
    let mut name = "pashari_".to_string();
    name.append(stamp);
    name.append(".png");
    name
}

/// A picture to be saved, and the name it is offered under.
#[derive(Debug)]
pub struct SaveJob {
    pub shot: Shot,
    pub name: String,
}

impl OverlayModel {
    /// The session over, with the file the selection was saved to.
    pub open spec fn saved(self, path: Seq<char>) -> OverlayModel {
        OverlayModel {
            scene: Scene { last_region: self.scene.selection, ..self.scene },
            outcome: Some(OutcomeModel::Saved(path)),
            ..self
        }.over()
    }
}

impl Overlay {
    /// What is to be saved under a name of the user's choice: the selected
    /// part of the picture, and a name made of the local time. `None`
    /// without a selection.
    pub fn save_as(&self) -> (job: Option<SaveJob>)
        requires
            self@.wf(),
        ensures
            match self@.scene.selection {
                None => job is None,
                Some(r) => job matches Some(j) && j.shot.width == r.x1 - r.x0 && j.shot.height
                    == r.y1 - r.y0 && j.shot.rgba@ == cut(
                    self@.kit.frozen.bright@,
                    self@.kit.frozen.width as int,
                    r,
                ) && exists|stamp: Seq<char>|
                    is_stamp(stamp) && j.name@ == #[trigger] picture_name(stamp),
            },
    {
        match self.selected_shot() {
            Some(shot) => {
                let stamp = local_stamp();
                let name = default_name(stamp.as_str());
                Some(SaveJob { shot, name })
            },
            None => None,
        }
    }

    /// The selection was saved to a file. With `None` it was not, and the
    /// selection stays as it is.
    pub fn saved_as(&mut self, path: Option<String>)
        requires
            old(self)@.wf(),
        ensures
            final(self)@.wf(),
            final(self)@ == (match path {
                Some(p) => old(self)@.saved(p@),
                None => old(self)@,
            }),
    {
        if let Some(p) = path {
            self.scene = Scene { last_region: self.scene.selection, ..self.scene };
            self.outcome = Some(Outcome::Saved(p));
            proof {
                lemma_seen(self.outcome);
            }
            self.finish();
        }
    }
}

} // verus!
