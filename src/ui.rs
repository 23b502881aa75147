use vstd::prelude::*;

verus! {

/// The chat window's own state: the lines it shows and the line being typed.
pub struct App {
    pub counter: i32,
    pub message: Vec<String>,
    pub mahinput: String,
}

impl Default for App {
    fn default() -> (r: App)
        ensures
            r.counter == 0,
            r.message@.len() == 0,
            r.mahinput@.len() == 0,
    {
        App { counter: 0, message: Vec::new(), mahinput: String::new() }
    }
}

impl App {
    /// What pressing Enter in the input line does: the typed text joins the
    /// shown lines and the input line is cleared.
    pub fn submit_input(&mut self)
        ensures
            final(self).message@ == old(self).message@.push(old(self).mahinput),
            final(self).mahinput@.len() == 0,
            final(self).counter == old(self).counter,
    {
        let typed = self.mahinput.clone();
        self.message.push(typed);
        self.mahinput = String::new();
    }
}

} // verus!
