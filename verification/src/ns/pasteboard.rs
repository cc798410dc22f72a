//! A model of the pasteboard server.
//!
//! The server keeps one pasteboard per name; each pasteboard carries the count
//! of changes made to it so far and the data types its current contents
//! support. The model holds the server's boards as a sequence of
//! [`Pasteboard`] values, and looking a name up returns the first board that
//! carries it, or a fresh board for the name where none does.

use vstd::prelude::*;

use crate::ns;

verus! {

/// What a [`Pasteboard`] value holds: its name, how many changes it has seen,
/// and the data types of its current contents.
pub ghost struct PasteboardView {
    pub name: Seq<char>,
    pub change_count: int,
    pub types: Seq<Seq<char>>,
}

/// One pasteboard of the server.
pub struct Pasteboard {
    /// The name under which the server keeps the board.
    pub name: String,
    /// How many changes the board has seen.
    pub change_count: ns::Integer,
    /// The data types that the board's current contents support.
    pub types: Vec<String>,
}

impl View for Pasteboard {
    type V = PasteboardView;

    open spec fn view(&self) -> PasteboardView {
        PasteboardView {
            name: self.name@,
            change_count: self.change_count as int,
            types: self.types.deep_view(),
        }
    }
}

impl Clone for Pasteboard {
    fn clone(&self) -> (r: Self)
        ensures
            r@ == self@,
    {
        Pasteboard {
            name: self.name.clone(),
            change_count: self.change_count,
            types: ns::copy_string_array(&self.types),
        }
    }
}

/// The boards of a server, as the specification sees them.
pub open spec fn spec_board_views(boards: Seq<Pasteboard>) -> Seq<PasteboardView> {
    boards.map_values(|b: Pasteboard| b@)
}

/// The board that the server first creates for a name: no change yet, no
/// contents.
pub open spec fn spec_fresh_board(name: Seq<char>) -> PasteboardView {
    PasteboardView { name, change_count: 0, types: Seq::empty() }
}

/// The first board that carries the given name, if any does.
pub open spec fn spec_lookup_board(boards: Seq<PasteboardView>, name: Seq<char>) -> Option<
    PasteboardView,
>
    decreases boards.len(),
{
    if boards.len() == 0 {
        None
    } else if boards[0].name == name {
        Some(boards[0])
    } else {
        spec_lookup_board(boards.drop_first(), name)
    }
}

/// The board that a lookup of the given name yields: the first board carrying
/// the name, or a fresh board for it where none does.
pub open spec fn spec_board_for(boards: Seq<PasteboardView>, name: Seq<char>) -> PasteboardView {
    match spec_lookup_board(boards, name) {
        Some(b) => b,
        None => spec_fresh_board(name),
    }
}

impl Pasteboard {
    /// Returns the pasteboard with the specified name: the board the server
    /// keeps under it, or a fresh board where the server keeps none.
    pub fn with_name(boards: &Vec<Pasteboard>, name: &str) -> (r: Option<Pasteboard>)
        ensures
            match r {
                Some(p) => p@ == spec_board_for(spec_board_views(boards@), name@),
                None => false,
            },
    {
        let name_string: String = name.to_owned();
        let ghost views = spec_board_views(boards@);
        proof {
            assert(views.skip(0) =~= views);
        }
        let mut i: usize = 0;
        while i < boards.len()
            invariant
                i <= boards@.len(),
                views == spec_board_views(boards@),
                name_string@ == name@,
                spec_lookup_board(views, name@) == spec_lookup_board(
                    views.skip(i as int),
                    name@,
                ),
            decreases boards@.len() - i,
        {
            proof {
                assert(views.skip(i as int)[0] == views[i as int]);
                assert(views[i as int] == boards@[i as int]@);
                assert(views.skip(i as int).drop_first() =~= views.skip(i as int + 1));
            }
            if boards[i].name == name_string {
                return Some(boards[i].clone());
            }
            i += 1;
        }
        proof {
            assert(views.skip(boards@.len() as int).len() == 0);
        }
        let fresh = Pasteboard { name: name_string, change_count: 0, types: Vec::new() };
        proof {
            assert(fresh@.types =~= spec_fresh_board(name@).types);
        }
        Some(fresh)
    }

    /// Returns the number of changes made to the receiver.
    pub fn change_count(&self) -> (r: ns::Integer)
        ensures
            r as int == self@.change_count,
    {
        self.change_count
    }

    /// An array of the receiver's supported data types.
    pub fn types(&self) -> (r: Option<Vec<String>>)
        ensures
            match r {
                Some(ts) => ts.deep_view() == self@.types,
                None => false,
            },
    {
        Some(ns::copy_string_array(&self.types))
    }
}

} // verus!
