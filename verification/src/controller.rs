//! The edit-session controller: one playbook (the persisted document) plus
//! an optional draft play used for in-progress edits. The draft is always
//! independent storage: mutating it never affects the playbook until an
//! explicit save.

use crate::error::PbcError;
use crate::formation::FormationView;
use crate::names::{FormationName, PlayName};
use crate::play::{PBCPlay, PlayView};
use crate::playbook::{PBCPlaybook, PlaybookView};
use crate::player::{stripped, PlayerView};
use vstd::prelude::*;

verus! {

/// The central coordinator between a host application and the document: it
/// owns the playbook and the draft play being edited.
pub struct PBCController {
    playbook: PBCPlaybook,
    current_play: Option<PBCPlay>,
}

/// The mathematical content of a controller: the playbook's view and the
/// draft slot.
#[verifier::ext_equal]
pub ghost struct ControllerView {
    pub playbook: PlaybookView,
    pub draft: Option<PlayView>,
}

impl View for PBCController {
    type V = ControllerView;

    closed spec fn view(&self) -> ControllerView {
        ControllerView {
            playbook: self.playbook@,
            draft: match self.current_play {
                Option::Some(p) => Option::Some(p@),
                Option::None => Option::None,
            },
        }
    }
}

impl PBCController {
    /// Well-formedness: the owned playbook is well-formed.
    pub closed spec fn wf(self) -> bool {
        self.playbook.wf()
    }

    /// Creates a controller with a default playbook and no draft.
    pub fn new() -> (r: Self)
        ensures
            r.wf(),
            r@.draft is None,
            r@.playbook.name == "New Playbook"@,
            r@.playbook.player_number == 5,
            r@.playbook.plays == Map::<Seq<char>, PlayView>::empty(),
            r@.playbook.categories == Map::<Seq<char>, Seq<char>>::empty(),
            r@.playbook.rel == Set::<(Seq<char>, Seq<char>)>::empty(),
            r@.playbook.routes.dom() == crate::default_playbook::default_route_names(),
            r@.playbook.formations.dom() == Set::<Seq<char>>::empty().insert("Spread Right"@),
    {
        PBCController { playbook: PBCPlaybook::default(), current_play: None }
    }

    // ========== Playbook access ==========

    /// The owned playbook.
    pub fn playbook(&self) -> (r: &PBCPlaybook)
        ensures
            r@ == self@.playbook,
            self.wf() ==> r.wf(),
    {
        &self.playbook
    }

    /// Replaces the playbook entirely; any draft is discarded, since it
    /// belonged to the previous document.
    pub fn set_playbook(&mut self, playbook: PBCPlaybook)
        requires
            playbook.wf(),
        ensures
            final(self).wf(),
            final(self)@ == (ControllerView {
                playbook: playbook@,
                draft: Option::<PlayView>::None,
            }),
    {
        self.playbook = playbook;
        self.current_play = None;
    }

    /// Renames the playbook document.
    pub fn set_playbook_name(&mut self, name: String)
        requires
            old(self).wf(),
        ensures
            final(self).wf(),
            final(self)@ == (ControllerView {
                playbook: (PlaybookView { name: name@, ..old(self)@.playbook }),
                draft: old(self)@.draft,
            }),
    {
        self.playbook.set_name(name);
    }

    /// Replaces the document with a freshly seeded one and clears the
    /// draft.
    pub fn reset_playbook(&mut self, name: &str, player_number: u32)
        ensures
            final(self).wf(),
            final(self)@.draft is None,
            final(self)@.playbook.name == name@,
            final(self)@.playbook.player_number == player_number,
            final(self)@.playbook.plays == Map::<Seq<char>, PlayView>::empty(),
            final(self)@.playbook.categories == Map::<Seq<char>, Seq<char>>::empty(),
            final(self)@.playbook.rel == Set::<(Seq<char>, Seq<char>)>::empty(),
            final(self)@.playbook.routes.dom() == crate::default_playbook::default_route_names(),
            final(self)@.playbook.formations.dom() == Set::<Seq<char>>::empty().insert(
                "Spread Right"@,
            ),
    {
        self.playbook.reset(name, player_number);
        self.current_play = None;
    }

    // ========== Draft management ==========

    /// The draft play being edited, if any.
    pub fn current_play(&self) -> (r: Option<&PBCPlay>)
        ensures
            match r {
                Option::Some(p) => self@.draft == Option::Some(p@),
                Option::None => self@.draft is None,
            },
    {
        self.current_play.as_ref()
    }

    /// Whether a draft play is loaded.
    pub fn has_current_play(&self) -> (r: bool)
        ensures
            r == (self@.draft is Some),
    {
        self.current_play.is_some()
    }

    /// Discards the draft unconditionally.
    pub fn clear_current_play(&mut self)
        ensures
            final(self)@ == (ControllerView {
                playbook: old(self)@.playbook,
                draft: Option::<PlayView>::None,
            }),
            old(self).wf() ==> final(self).wf(),
    {
        self.current_play = None;
    }

    /// Copies the named persisted play into the draft, discarding any prior
    /// draft. Fails with `NotFound`, leaving the previous draft untouched,
    /// when the play does not exist.
    pub fn load_play(&mut self, play_name: &PlayName) -> (r: Result<(), PbcError>)
        requires
            old(self).wf(),
        ensures
            final(self).wf(),
            old(self)@.playbook.plays.dom().contains(play_name@) ==> r is Ok && final(self)@ == (
            ControllerView {
                playbook: old(self)@.playbook,
                draft: Option::Some(old(self)@.playbook.plays[play_name@]),
            }),
            !old(self)@.playbook.plays.dom().contains(play_name@) ==> ((r matches Err(e)
                && e is NotFound) && final(self)@ == old(self)@),
    {
        let loaded = match self.playbook.get_play(play_name) {
            Ok(p) => Ok(p.clone()),
            Err(e) => Err(e),
        };
        match loaded {
            Ok(p) => {
                self.current_play = Some(p);
                Ok(())
            },
            Err(e) => Err(e),
        }
    }

    /// Saves the draft into the playbook under its current name with the
    /// store's insert semantics, and reports the underlying insert outcome:
    /// `Ok(true)` when stored, `Ok(false)` when the name was taken and
    /// `overwrite` was not given. Fails with `NoCurrentPlay` when no draft
    /// is loaded. The draft stays loaded either way.
    pub fn save_current_play(&mut self, overwrite: bool) -> (r: Result<bool, PbcError>)
        requires
            old(self).wf(),
        ensures
            final(self).wf(),
            old(self)@.draft is None ==> ((r matches Err(e) && e is NoCurrentPlay) && final(self)@
                == old(self)@),
            final(self)@.draft == old(self)@.draft,
            old(self)@.draft matches Some(d) ==> {
                &&& (overwrite || !old(self)@.playbook.plays.dom().contains(d.name)) ==> r
                    == Result::<bool, PbcError>::Ok(true) && final(self)@.playbook == (PlaybookView {
                    plays: old(self)@.playbook.plays.insert(d.name, d),
                    ..old(self)@.playbook
                })
                &&& (!overwrite && old(self)@.playbook.plays.dom().contains(d.name)) ==> r
                    == Result::<bool, PbcError>::Ok(false) && final(self)@.playbook == old(self)@.playbook
            },
    {
        let play = match &self.current_play {
            Some(p) => p.clone(),
            None => {
                return Err(PbcError::NoCurrentPlay);
            },
        };
        self.playbook.add_play(play, overwrite)
    }

    /// Renames the draft (name and code name) and force-overwrites the
    /// target slot in the playbook; the draft becomes the renamed play.
    /// Fails with `NoCurrentPlay` when no draft is loaded.
    pub fn save_current_play_as(&mut self, new_name: String, new_code_name: String) -> (r: Result<
        (),
        PbcError,
    >)
        requires
            old(self).wf(),
        ensures
            final(self).wf(),
            old(self)@.draft is None ==> ((r matches Err(e) && e is NoCurrentPlay) && final(self)@
                == old(self)@),
            old(self)@.draft matches Some(d) ==> r is Ok && final(self)@ == (ControllerView {
                playbook: (PlaybookView {
                    plays: old(self)@.playbook.plays.insert(
                        new_name@,
                        (PlayView { name: new_name@, code_name: new_code_name@, ..d }),
                    ),
                    ..old(self)@.playbook
                }),
                draft: Option::Some(
                    (PlayView { name: new_name@, code_name: new_code_name@, ..d }),
                ),
            }),
    {
        let mut play = match &self.current_play {
            Some(p) => p.clone(),
            None => {
                return Err(PbcError::NoCurrentPlay);
            },
        };
        play.name = PlayName::from(new_name);
        play.code_name = new_code_name;
        let stored = play.clone();
        let _ = self.playbook.add_play(stored, true);
        self.current_play = Some(play);
        Ok(())
    }

    // ========== High-level operations ==========

    /// Resolves the named formation, instantiates a template copy of it
    /// (routes and motions stripped), wraps it in a new play and installs
    /// that play as the draft, discarding any prior draft without saving
    /// it. The playbook itself is unchanged. Fails with `NotFound`, leaving
    /// everything unchanged, when the formation does not exist.
    pub fn create_and_load_new_play(
        &mut self,
        name: String,
        code_name: String,
        formation_name: &str,
    ) -> (r: Result<(), PbcError>)
        requires
            old(self).wf(),
        ensures
            final(self).wf(),
            old(self)@.playbook.formations.dom().contains(formation_name@) ==> r is Ok && final(self)@ == (ControllerView {
                playbook: old(self)@.playbook,
                draft: Option::Some(
                    (PlayView {
                        name: name@,
                        code_name: code_name@,
                        comment: Seq::<char>::empty(),
                        formation: (FormationView {
                            name: formation_name@,
                            players: old(self)@.playbook.formations[formation_name@].players
                                .map_values(|p: PlayerView| stripped(p)),
                        }),
                    }),
                ),
            }),
            !old(self)@.playbook.formations.dom().contains(formation_name@) ==> ((r matches Err(e)
                && e is NotFound) && final(self)@ == old(self)@),
    {
        proof {
            self.playbook.lemma_wf_keys();
        }
        let key = FormationName::new(formation_name);
        let formation = match self.playbook.get_formation(&key) {
            Ok(f) => f,
            Err(e) => {
                return Err(e);
            },
        };
        let template = formation.copy_without_routes();
        let play = PBCPlay::new(name.as_str(), code_name.as_str(), template);
        self.current_play = Some(play);
        Ok(())
    }

    /// Deletes the play from the playbook, cascading into the relation; if
    /// the draft is the deleted play, the draft is cleared as well, so the
    /// session never keeps editing a play that no longer exists.
    pub fn delete_play(&mut self, play_name: &PlayName) -> (r: Result<(), PbcError>)
        requires
            old(self).wf(),
        ensures
            final(self).wf(),
            r is Ok,
            final(self)@.playbook == (PlaybookView {
                plays: old(self)@.playbook.plays.remove(play_name@),
                rel: old(self)@.playbook.rel.filter(
                    (|pr: (Seq<char>, Seq<char>)| pr.0 != play_name@),
                ),
                ..old(self)@.playbook
            }),
            (old(self)@.draft matches Some(d) && d.name == play_name@) ==> final(self)@.draft is None,
            (match old(self)@.draft {
                Option::Some(d) => d.name != play_name@,
                Option::None => true,
            }) ==> final(self)@.draft == old(self)@.draft,
    {
        let clear = match &self.current_play {
            Some(cur) => cur.name == *play_name,
            None => false,
        };
        if clear {
            self.current_play = None;
        }
        self.playbook.delete_play(play_name)
    }
}

} // verus!
