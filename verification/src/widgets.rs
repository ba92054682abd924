//! The two pieces of widget state that the session keeps for the list of
//! countries: the scrollbar's and the list's.

use ratatui::widgets::ListState;
use ratatui::widgets::ScrollbarState;
use vstd::prelude::*;

verus! {

/// `ratatui::widgets::ScrollbarState`, the record that a scrollbar is drawn
/// from. Nothing is said of what is inside it but through the names below.
#[verifier::external_type_specification]
#[verifier::external_body]
pub struct ExScrollbarState(ratatui::widgets::ScrollbarState);

/// `ratatui::widgets::ListState`, the record that a list is drawn from.
/// Nothing is said of what is inside it but through the name below.
#[verifier::external_type_specification]
#[verifier::external_body]
pub struct ExListState(ratatui::widgets::ListState);

/// The content length that a scrollbar state holds: the number of items
/// it was last told of.
pub uninterp spec fn scroll_content_length(state: ScrollbarState) -> usize;

/// The position that a scrollbar state holds.
pub uninterp spec fn scroll_position(state: ScrollbarState) -> usize;

/// The index that a list state marks as selected, if any.
pub uninterp spec fn list_selected(state: ListState) -> Option<usize>;

/// `ScrollbarState::new`: a state for `content_length` items, at position 0.
#[verifier::external_body]
pub(crate) fn scrollbar_new(content_length: usize) -> (state: ScrollbarState)
    ensures
        scroll_content_length(state) == content_length,
        scroll_position(state) == 0,
{
    ScrollbarState::new(content_length)
}

/// `ScrollbarState::position`: the same state with its position replaced.
#[verifier::external_body]
pub(crate) fn scrollbar_position(state: ScrollbarState, position: usize) -> (moved: ScrollbarState)
    ensures
        scroll_position(moved) == position,
        scroll_content_length(moved) == scroll_content_length(state),
{
    state.position(position)
}

/// `ScrollbarState::content_length`: the same state with its content length
/// replaced.
#[verifier::external_body]
pub(crate) fn scrollbar_content_length(state: ScrollbarState, content_length: usize) -> (resized:
    ScrollbarState)
    ensures
        scroll_content_length(resized) == content_length,
        scroll_position(resized) == scroll_position(state),
{
    state.content_length(content_length)
}

/// `ListState::default`: a list state with nothing selected.
#[verifier::external_body]
pub(crate) fn list_state_default() -> (state: ListState)
    ensures
        list_selected(state) == None::<usize>,
{
    ListState::default()
}

/// `ListState::select`: replaces the selected index.
#[verifier::external_body]
pub(crate) fn list_state_select(state: &mut ListState, index: Option<usize>)
    ensures
        list_selected(*final(state)) == index,
{
    state.select(index)
}

} // verus!
