//! A write-once, read-many cell holding the user's program text.
use vstd::prelude::*;

verus! {

/// The single-assignment slot that carries the program text from the image
/// build to its resumption. It starts empty, can be filled once, and is never
/// overwritten.
pub struct ProgramText {
    text: Option<String>,
}

impl View for ProgramText {
    type V = Option<Seq<char>>;

    closed spec fn view(&self) -> Option<Seq<char>> {
        match self.text {
            Some(s) => Some(s@),
            None => None,
        }
    }
}

/// The slot after an attempt to fill `slot` with `text`: an empty slot takes
/// the text, a filled one keeps what it holds.
pub open spec fn slot_after_set(slot: Option<Seq<char>>, text: Seq<char>) -> Option<Seq<char>> {
    match slot {
        None => Some(text),
        Some(t) => Some(t),
    }
}

impl ProgramText {
    /// An empty slot.
    pub fn new() -> (r: ProgramText)
        ensures
            r@ is None,
    {
        ProgramText { text: None }
    }

    /// Whether the slot has been filled.
    pub fn is_set(&self) -> (r: bool)
        ensures
            r == self@ is Some,
    {
        self.text.is_some()
    }

    /// Fills the slot. A filled slot is left as it is and the rejected text is
    /// handed back.
    pub fn set(&mut self, text: String) -> (r: Result<(), String>)
        ensures
            final(self)@ == slot_after_set(old(self)@, text@),
            r is Ok <==> old(self)@ is None,
            r is Err ==> r == Err::<(), String>(text),
    {
        if self.text.is_some() {
            Err(text)
        } else {
            self.text = Some(text);
            Ok(())
        }
    }

    /// Reads the slot: `None` while it has never been filled.
    pub fn get(&self) -> (r: Option<&String>)
        ensures
            r is None <==> self@ is None,
            r matches Some(s) ==> self@ == Some(s@),
    {
        self.text.as_ref()
    }
}

} // verus!
