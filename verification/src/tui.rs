//! The state of the interactive key/value screen: which screen is
//! current, which input field has focus, the pairs collected so far and
//! the status line. Rendering it is the caller's business.
use vstd::prelude::*;

verus! {

/// Which screen the user is on.
#[derive(Clone, Copy, Debug, PartialEq, Eq, Structural)]
pub enum CurrentScreen {
    Main,
    Environment,
    Exiting,
}

/// Which half of a key/value pair has focus.
#[derive(Clone, Copy, Debug, PartialEq, Eq, Structural)]
pub enum CurrentEnvironment {
    Key,
    Value,
}

/// `pairs` with `(key, value)` stored: the first pair holding `key` is
/// replaced, a fresh pair is appended when none does.
pub open spec fn upsert_pair(
    pairs: Seq<(Seq<char>, Seq<char>)>,
    key: Seq<char>,
    value: Seq<char>,
) -> Seq<(Seq<char>, Seq<char>)>
    decreases pairs.len(),
{
    if pairs.len() == 0 {
        seq![(key, value)]
    } else if pairs[0].0 == key {
        seq![(key, value)] + pairs.drop_first()
    } else {
        seq![pairs[0]] + upsert_pair(pairs.drop_first(), key, value)
    }
}

/// The interactive screen's state.
#[derive(Debug)]
pub struct App {
    pub key_input: String,
    pub value_input: String,
    pub pairs: Vec<(String, String)>,
    pub current_screen: CurrentScreen,
    pub current_environment: Option<CurrentEnvironment>,
    pub status_message: String,
}

impl App {
    /// A fresh state: empty inputs, no pairs, the main screen, no focus,
    /// and the starting status line.
    pub fn new() -> (a: App)
        ensures
            a.key_input@ == Seq::<char>::empty(),
            a.value_input@ == Seq::<char>::empty(),
            a.pairs.deep_view() == Seq::<(Seq<char>, Seq<char>)>::empty(),
            a.current_screen == CurrentScreen::Main,
            a.current_environment is None,
            a.status_message@ == "Running"@,
    {
        let a = App {
            key_input: String::new(),
            value_input: String::new(),
            pairs: Vec::new(),
            current_screen: CurrentScreen::Main,
            current_environment: None,
            status_message: "Running".to_owned(),
        };
        proof {
            assert(a.pairs.deep_view() =~= Seq::<(Seq<char>, Seq<char>)>::empty());
        }
        a
    }

    /// Stores the edited pair and clears the editor: the current inputs
    /// go into the pairs (replacing the value of an existing key),
    /// both inputs empty out and focus is dropped.
    pub fn save_key_value(&mut self)
        ensures
            final(self).pairs.deep_view() == upsert_pair(
                old(self).pairs.deep_view(),
                old(self).key_input@,
                old(self).value_input@,
            ),
            final(self).key_input@ == Seq::<char>::empty(),
            final(self).value_input@ == Seq::<char>::empty(),
            final(self).current_environment is None,
            final(self).current_screen == old(self).current_screen,
            final(self).status_message == old(self).status_message,
    {
        let n = self.pairs.len();
        let mut i: usize = 0;
        let mut found: Option<usize> = None;
        while i < n
            invariant
                0 <= i <= n,
                n == self.pairs.len(),
                match found {
                    Some(j) => j < i && self.pairs.deep_view()[j as int].0 == self.key_input@
                        && (forall|k: int| 0 <= k < j ==> self.pairs.deep_view()[k].0
                        != self.key_input@),
                    None => forall|k: int| 0 <= k < i ==> self.pairs.deep_view()[k].0
                        != self.key_input@,
                },
            decreases n - i,
        {
            match found {
                Some(_) => {
                },
                None => {
                    if crate::strutil::str_eq(self.pairs[i].0.as_str(), self.key_input.as_str()) {
                        found = Some(i);
                    }
                },
            }
            i = i + 1;
        }
        let ghost pre = self.pairs.deep_view();
        let ghost key = self.key_input@;
        let ghost value = self.value_input@;
        match found {
            Some(j) => {
                let entry = (self.key_input.clone(), self.value_input.clone());
                self.pairs.set(j, entry);
                proof {
                    lemma_upsert_at(pre, key, value, j as int);
                    assert(self.pairs.deep_view() =~= pre.update(j as int, (key, value)));
                }
            },
            None => {
                let entry = (self.key_input.clone(), self.value_input.clone());
                self.pairs.push(entry);
                proof {
                    lemma_upsert_missing(pre, key, value);
                    assert(self.pairs.deep_view() =~= pre.push((key, value)));
                }
            },
        }
        self.key_input = String::new();
        self.value_input = String::new();
        self.current_environment = None;
    }

    /// Moves focus: none to the key, the key to the value, the value
    /// back to the key.
    pub fn toggle_environment(&mut self)
        ensures
            final(self).current_environment == (match old(self).current_environment {
                None => Some(CurrentEnvironment::Key),
                Some(CurrentEnvironment::Key) => Some(CurrentEnvironment::Value),
                Some(CurrentEnvironment::Value) => Some(CurrentEnvironment::Key),
            }),
            final(self).pairs == old(self).pairs,
            final(self).key_input == old(self).key_input,
            final(self).value_input == old(self).value_input,
            final(self).current_screen == old(self).current_screen,
            final(self).status_message == old(self).status_message,
    {
        match self.current_environment {
            Some(CurrentEnvironment::Key) => {
                self.current_environment = Some(CurrentEnvironment::Value);
            },
            Some(CurrentEnvironment::Value) => {
                self.current_environment = Some(CurrentEnvironment::Key);
            },
            None => {
                self.current_environment = Some(CurrentEnvironment::Key);
            },
        }
    }

    /// Replaces the status line.
    pub fn set_status_message(&mut self, status: &str)
        ensures
            final(self).status_message@ == status@,
            final(self).pairs == old(self).pairs,
            final(self).key_input == old(self).key_input,
            final(self).value_input == old(self).value_input,
            final(self).current_screen == old(self).current_screen,
            final(self).current_environment == old(self).current_environment,
    {
        self.status_message = status.to_owned();
    }

    /// The current status line.
    pub fn get_status_message(&self) -> (r: String)
        ensures
            r@ == self.status_message@,
    {
        self.status_message.clone()
    }

    /// One `key=value` line per stored pair, in order.
    pub fn environment_lines(&self) -> (r: Vec<String>)
        ensures
            r@.len() == self.pairs@.len(),
            forall|i: int| 0 <= i < r@.len() ==> r.deep_view()[i] == self.pairs.deep_view()[i].0
                + "="@ + self.pairs.deep_view()[i].1,
    {
        let mut out: Vec<String> = Vec::new();
        let mut i: usize = 0;
        while i < self.pairs.len()
            invariant
                0 <= i <= self.pairs.len(),
                out@.len() == i,
                forall|k: int| 0 <= k < i ==> out.deep_view()[k] == self.pairs.deep_view()[k].0
                    + "="@ + self.pairs.deep_view()[k].1,
            decreases self.pairs.len() - i,
        {
            let mut line = String::new();
            line.append(self.pairs[i].0.as_str());
            line.append("=");
            line.append(self.pairs[i].1.as_str());
            proof {
                assert(line@ =~= self.pairs.deep_view()[i as int].0 + "="@
                    + self.pairs.deep_view()[i as int].1);
            }
            let ghost lv = line@;
            let ghost pre = out.deep_view();
            out.push(line);
            proof {
                assert(out.deep_view() =~= pre.push(lv));
            }
            i = i + 1;
        }
        out
    }
}

proof fn lemma_upsert_at(
    pairs: Seq<(Seq<char>, Seq<char>)>,
    key: Seq<char>,
    value: Seq<char>,
    j: int,
)
    requires
        0 <= j < pairs.len(),
        pairs[j].0 == key,
        forall|k: int| 0 <= k < j ==> pairs[k].0 != key,
    ensures
        upsert_pair(pairs, key, value) == pairs.update(j, (key, value)),
    decreases j,
{
    if j == 0 {
        assert(upsert_pair(pairs, key, value) =~= pairs.update(0, (key, value)));
    } else {
        let rest = pairs.drop_first();
        lemma_upsert_at(rest, key, value, j - 1);
        assert(seq![pairs[0]] + rest.update(j - 1, (key, value)) =~= pairs.update(
            j,
            (key, value),
        ));
    }
}

proof fn lemma_upsert_missing(pairs: Seq<(Seq<char>, Seq<char>)>, key: Seq<char>, value: Seq<char>)
    requires
        forall|k: int| 0 <= k < pairs.len() ==> pairs[k].0 != key,
    ensures
        upsert_pair(pairs, key, value) == pairs.push((key, value)),
    decreases pairs.len(),
{
    if pairs.len() == 0 {
        assert(upsert_pair(pairs, key, value) =~= pairs.push((key, value)));
    } else {
        let rest = pairs.drop_first();
        lemma_upsert_missing(rest, key, value);
        assert(seq![pairs[0]] + rest.push((key, value)) =~= pairs.push((key, value)));
    }
}

} // verus!
