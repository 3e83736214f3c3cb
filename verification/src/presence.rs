//! Decides when a watched service's disappearance must blank the display.

use vstd::prelude::*;

verus! {

/// Whether an ownership change must blank the display: the name is watched
/// and the service has no owner any more.
pub open spec fn blanks_display(
    watched: Seq<Seq<char>>,
    name: Seq<char>,
    new_owner: Option<Seq<char>>,
) -> bool {
    watched.contains(name) && new_owner is None
}

/// Watches a fixed set of well-known service names; on an ownership change
/// for one of them that left it unowned, asks for a blank output line so the
/// widget hides itself.
pub struct ServicePresenceTracker {
    pub watched: Vec<String>,
}

impl View for ServicePresenceTracker {
    type V = Seq<Seq<char>>;

    open spec fn view(&self) -> Seq<Seq<char>> {
        self.watched.deep_view()
    }
}

impl ServicePresenceTracker {
    /// A tracker over the given well-known names.
    pub fn new(watched: Vec<String>) -> (r: ServicePresenceTracker)
        ensures
            r@ == watched.deep_view(),
    {
        ServicePresenceTracker { watched }
    }

    /// The line to print for one ownership change: a blank line exactly when
    /// the name is watched and now has no owner, nothing otherwise. The
    /// tracker never touches the playback state.
    pub fn on_ownership_change(&self, name: &String, new_owner: &Option<String>) -> (r: Option<
        String,
    >)
        ensures
            r is Some <==> blanks_display(self@, name@, new_owner.deep_view()),
            r matches Some(line) ==> line@ == Seq::<char>::empty(),
    {
        if new_owner.is_some() {
            return None;
        }
        let mut i: usize = 0;
        while i < self.watched.len()
            invariant
                i <= self.watched.len(),
                new_owner is None,
                forall|k: int| 0 <= k < i ==> self.watched.deep_view()[k] != name@,
            decreases self.watched.len() - i,
        {
            if self.watched[i] == *name {
                proof {
                    assert(self@.contains(name@)) by {
                        assert(self@[i as int] == name@);
                    }
                }
                return Some(String::new());
            }
            i = i + 1;
        }
        proof {
            assert(!self@.contains(name@));
        }
        None
    }
}

/// The compiled-in watched list: the well-known bus names of the two media
/// players this reporter follows.
pub fn default_watched_names() -> (r: Vec<String>)
    ensures
        r.deep_view() == seq![
            "org.mpris.MediaPlayer2.spotify"@,
            "org.mpris.MediaPlayer2.Feishin"@,
        ],
{
    let mut watched: Vec<String> = Vec::new();
    watched.push(String::from_str("org.mpris.MediaPlayer2.spotify"));
    watched.push(String::from_str("org.mpris.MediaPlayer2.Feishin"));
    proof {
        assert(watched.deep_view() =~= seq![
            "org.mpris.MediaPlayer2.spotify"@,
            "org.mpris.MediaPlayer2.Feishin"@,
        ]);
    }
    watched
}

} // verus!
