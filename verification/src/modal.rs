//! A select-one machine: a named list of options, the currently selected one,
//! and a one-shot event flag set when the selection changes. The presentation
//! layer draws it; the logic here owns the state.
use vstd::prelude::*;

verus! {

pub struct ModalMachine {
    selected_option: String,
    options: Vec<String>,
    name: String,
    event: Option<()>,
}

impl ModalMachine {
    pub closed spec fn spec_selected(self) -> Seq<char> {
        self.selected_option@
    }

    pub closed spec fn spec_options(self) -> Seq<Seq<char>> {
        self.options@.map_values(|s: String| s@)
    }

    pub closed spec fn spec_name(self) -> Seq<char> {
        self.name@
    }

    pub closed spec fn has_event(self) -> bool {
        self.event is Some
    }

    pub fn default() -> (r: ModalMachine)
        ensures
            r.spec_selected() == Seq::<char>::empty(),
            r.spec_options() == Seq::<Seq<char>>::empty(),
            r.spec_name() == Seq::<char>::empty(),
            !r.has_event(),
    {
        let r = ModalMachine {
            selected_option: String::new(),
            options: Vec::new(),
            name: String::new(),
            event: None,
        };
        proof {
            assert(r.spec_options() =~= Seq::<Seq<char>>::empty());
        }
        r
    }

    pub fn new(selected_option: String, options: Vec<String>, name: String) -> (r: ModalMachine)
        ensures
            r.spec_selected() == selected_option@,
            r.spec_options() == options@.map_values(|s: String| s@),
            r.spec_name() == name@,
            !r.has_event(),
    {
        ModalMachine { selected_option, options, name, event: None }
    }

    pub fn get_selected_option(&self) -> (r: String)
        ensures
            r@ == self.spec_selected(),
    {
        self.selected_option.clone()
    }

    /// How many options the machine offers.
    pub fn options_len(&self) -> (r: usize)
        ensures
            r == self.spec_options().len(),
    {
        self.options.len()
    }

    /// One option, for display.
    pub fn option_at(&self, i: usize) -> (r: &String)
        requires
            i < self.spec_options().len(),
        ensures
            r@ == self.spec_options()[i as int],
    {
        &self.options[i]
    }

    /// Records that the user picked an option: the selection changes and the
    /// one-shot event flag is raised, for `use_event` to consume.
    pub fn select_option(&mut self, selected: String)
        ensures
            final(self).spec_selected() == selected@,
            final(self).spec_options() == old(self).spec_options(),
            final(self).spec_name() == old(self).spec_name(),
            final(self).has_event(),
    {
        self.selected_option = selected;
        self.event = Some(());
    }

    /// Consumes the pending event, if one is waiting.
    pub fn use_event(&mut self) -> (r: Option<()>)
        ensures
            !final(self).has_event(),
            r is Some <==> old(self).has_event(),
            final(self).spec_selected() == old(self).spec_selected(),
            final(self).spec_options() == old(self).spec_options(),
            final(self).spec_name() == old(self).spec_name(),
    {
        self.event.take()
    }
}

/// The landing-page selector, offering the login page and the portals page.
pub fn set_base_page() -> (r: ModalMachine)
    ensures
        r.spec_selected() == "Login"@,
        r.spec_options().len() == 2,
        r.spec_options()[0] == "Login"@,
        r.spec_options()[1] == "Nether Portals"@,
        !r.has_event(),
{
    let first: String = "Login".to_owned();
    let mut options: Vec<String> = Vec::new();
    options.push(first);
    options.push("Nether Portals".to_owned());
    let selected: String = "Login".to_owned();
    let r = ModalMachine::new(selected, options, "Welcome to BorkCraft".to_owned());
    r
}

} // verus!
