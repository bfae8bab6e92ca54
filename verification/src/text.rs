//! Sequences of strings as sequences of their characters, and what a value
//! prints of itself.

use vstd::prelude::*;

verus! {

/// The characters of each string of a sequence, in the same order.
pub open spec fn texts_of(strings: Seq<String>) -> Seq<Seq<char>> {
    strings.map_values(|s: String| s@)
}

/// Whether `words` is what a value prints of itself: whatever `to_string`
/// returns for it has these characters.
pub open spec fn prints<T: core::fmt::Display>(value: T, words: Seq<char>) -> bool {
    forall|text: String| #[trigger]
        vstd::string::to_string_from_display_ensures::<T>(&value, text) ==> text@ == words
}

/// Whether `words` is what a value printed of itself: `to_string` returned
/// a string of these characters for it.
pub open spec fn is_printed<T: core::fmt::Display>(value: T, words: Seq<char>) -> bool {
    exists|text: String| #[trigger]
        vstd::string::to_string_from_display_ensures::<T>(&value, text) && text@ == words
}

} // verus!
