use vstd::prelude::*;

verus! {

/// One UI event reported by the emulator: a piece of rendered text and its
/// position on the screen.
#[derive(Debug, Clone)]
pub struct Event {
    pub text: String,
    pub x: u32,
    pub y: u32,
}

pub struct EventView {
    pub text: Seq<char>,
    pub x: u32,
    pub y: u32,
}

impl View for Event {
    type V = EventView;

    open spec fn view(&self) -> EventView {
        EventView { text: self.text@, x: self.x, y: self.y }
    }
}

impl PartialEq for Event {
    fn eq(&self, o: &Event) -> (r: bool)
        ensures
            r == (self@ == o@),
    {
        self.text == o.text && self.x == o.x && self.y == o.y
    }
}

impl vstd::std_specs::cmp::PartialEqSpecImpl for Event {
    open spec fn obeys_eq_spec() -> bool {
        true
    }

    open spec fn eq_spec(&self, o: &Event) -> bool {
        self@ == o@
    }
}

impl Eq for Event {
}

/// The events of one listing, in the order in which the emulator gave them.
#[derive(Debug, Clone)]
pub struct EventsResponse {
    pub events: Vec<Event>,
}

impl View for EventsResponse {
    type V = Seq<EventView>;

    open spec fn view(&self) -> Seq<EventView> {
        self.events@.map_values(|e: Event| e@)
    }
}

} // verus!
