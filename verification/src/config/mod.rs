//! Configuration: the snapshot's shape, the constraints it must meet, and
//! the expansion of environment variables in its text.

pub mod env;
pub mod schema;
pub mod watcher;

use vstd::prelude::*;
use crate::config::schema::{AppConfig, ButtonConfig, PageConfig};
use crate::error::DeckError;
use crate::strings::{concat3, decimal, owned, u8_to_string};

verus! {

/// The greatest brightness.
pub const MAX_BRIGHTNESS: u8 = 100;

/// The greatest key index.
pub const MAX_KEY: u8 = 14;

/// The complaint about a key index that is out of range.
pub open spec fn key_message(page_id: Seq<char>, key: u8) -> Seq<char> {
    "page '"@ + page_id + "': button key "@ + decimal(key as nat) + " out of range (0-14)"@
}

/// The complaint about the first button of the list whose key index is
/// out of range, if there is one.
pub open spec fn buttons_fault(page_id: Seq<char>, buttons: Seq<ButtonConfig>) -> Option<Seq<char>>
    decreases buttons.len(),
{
    if buttons.len() == 0 {
        None
    } else if buttons[0].key > MAX_KEY {
        Some(key_message(page_id, buttons[0].key))
    } else {
        buttons_fault(page_id, buttons.drop_first())
    }
}

/// The complaint about the first page, in the table's order, that has a
/// button whose key index is out of range.
pub open spec fn pages_fault(pages: Seq<(String, PageConfig)>) -> Option<Seq<char>>
    decreases pages.len(),
{
    if pages.len() == 0 {
        None
    } else {
        match buttons_fault(pages[0].0@, pages[0].1.buttons@) {
            Some(message) => Some(message),
            None => pages_fault(pages.drop_first()),
        }
    }
}

/// What is wrong with a snapshot, if anything: first the brightness,
/// then the key indices, page by page.
pub open spec fn config_fault(config: AppConfig) -> Option<Seq<char>> {
    if config.deckd.brightness > MAX_BRIGHTNESS {
        Some("brightness must be 0-100"@)
    } else {
        pages_fault(config.pages.entries@)
    }
}

proof fn lemma_buttons_fault_skip(page_id: Seq<char>, buttons: Seq<ButtonConfig>, from: int)
    requires
        0 <= from <= buttons.len(),
        forall|j: int| 0 <= j < from ==> buttons[j].key <= MAX_KEY,
    ensures
        buttons_fault(page_id, buttons) == buttons_fault(page_id, buttons.skip(from)),
    decreases from,
{
    if from == 0 {
        assert(buttons.skip(0) =~= buttons);
    } else {
        lemma_buttons_fault_skip(page_id, buttons, from - 1);
        let tail = buttons.skip(from - 1);
        assert(tail[0] == buttons[from - 1]);
        assert(tail.drop_first() =~= buttons.skip(from));
    }
}

proof fn lemma_pages_fault_skip(pages: Seq<(String, PageConfig)>, from: int)
    requires
        0 <= from <= pages.len(),
        forall|j: int| 0 <= j < from ==> buttons_fault(pages[j].0@, pages[j].1.buttons@) is None,
    ensures
        pages_fault(pages) == pages_fault(pages.skip(from)),
    decreases from,
{
    if from == 0 {
        assert(pages.skip(0) =~= pages);
    } else {
        lemma_pages_fault_skip(pages, from - 1);
        let tail = pages.skip(from - 1);
        assert(tail[0] == pages[from - 1]);
        assert(tail.drop_first() =~= pages.skip(from));
    }
}

fn check_buttons(page_id: &str, page: &PageConfig) -> (result: Result<(), DeckError>)
    ensures
        match buttons_fault(page_id@, page.buttons@) {
            Some(fault) => result matches Err(DeckError::Config(message)) && message@ == fault,
            None => result is Ok,
        },
{
    let mut i: usize = 0;
    while i < page.buttons.len()
        invariant
            i <= page.buttons@.len(),
            forall|j: int| 0 <= j < i ==> page.buttons@[j].key <= MAX_KEY,
        decreases page.buttons@.len() - i,
    {
        let key = page.buttons[i].key;
        if key > MAX_KEY {
            proof {
                lemma_buttons_fault_skip(page_id@, page.buttons@, i as int);
                assert(page.buttons@.skip(i as int)[0] == page.buttons@[i as int]);
            }
            let head = concat3("page '", page_id, "': button key ");
            let number = u8_to_string(key);
            let message = concat3(head.as_str(), number.as_str(), " out of range (0-14)");
            return Err(DeckError::Config(message));
        }
        i += 1;
    }
    proof {
        lemma_buttons_fault_skip(page_id@, page.buttons@, page.buttons@.len() as int);
    }
    Ok(())
}

/// Checks the constraints on a snapshot: a brightness of at most 100 and
/// key indices of at most 14. The first violation found is the error.
pub fn validate(config: &AppConfig) -> (result: Result<(), DeckError>)
    ensures
        match config_fault(*config) {
            Some(fault) => result matches Err(DeckError::Config(message)) && message@ == fault,
            None => result is Ok,
        },
{
    if config.deckd.brightness > MAX_BRIGHTNESS {
        return Err(DeckError::Config(owned("brightness must be 0-100")));
    }
    let mut i: usize = 0;
    while i < config.pages.len()
        invariant
            i <= config.pages.entries@.len(),
            config.deckd.brightness <= MAX_BRIGHTNESS,
            forall|j: int|
                0 <= j < i ==> buttons_fault(
                    config.pages.entries@[j].0@,
                    config.pages.entries@[j].1.buttons@,
                ) is None,
        decreases config.pages.entries@.len() - i,
    {
        match check_buttons(config.pages.key_at(i), config.pages.value_at(i)) {
            Ok(()) => {},
            Err(error) => {
                proof {
                    lemma_pages_fault_skip(config.pages.entries@, i as int);
                    assert(config.pages.entries@.skip(i as int)[0] == config.pages.entries@[i as int]);
                }
                return Err(error);
            },
        }
        i += 1;
    }
    proof {
        lemma_pages_fault_skip(config.pages.entries@, config.pages.entries@.len() as int);
    }
    Ok(())
}

} // verus!
