//! The stack of visited pages.

use vstd::prelude::*;
use crate::config::schema::{AppConfig, ButtonConfig, PageConfig};
use crate::strings::owned;

verus! {

/// The navigator as a mathematical value: the visited page ids, the
/// current one last, and the id of the home page.
pub struct PageStack {
    pub stack: Seq<Seq<char>>,
    pub home: Seq<char>,
}

impl PageStack {
    /// A navigator that has just been made.
    pub open spec fn start(home: Seq<char>) -> PageStack {
        PageStack { stack: seq![home], home }
    }

    /// The current page: the top of the stack.
    pub open spec fn current(self) -> Seq<char> {
        self.stack.last()
    }

    /// The navigator after a page was opened.
    pub open spec fn navigate_to(self, id: Seq<char>) -> PageStack {
        PageStack { stack: self.stack.push(id), home: self.home }
    }

    /// Whether going back changes the page: more than one page is on the
    /// stack.
    pub open spec fn can_go_back(self) -> bool {
        self.stack.len() > 1
    }

    /// The navigator after going back: the top is dropped unless it is
    /// the only page.
    pub open spec fn go_back(self) -> PageStack {
        if self.can_go_back() {
            PageStack { stack: self.stack.drop_last(), home: self.home }
        } else {
            self
        }
    }

    /// The navigator after going home.
    pub open spec fn go_home(self) -> PageStack {
        PageStack { stack: seq![self.home], home: self.home }
    }

    /// The navigator with another home page; the stack stays.
    pub open spec fn set_home_page(self, home: Seq<char>) -> PageStack {
        PageStack { stack: self.stack, home }
    }

    /// The navigator after each of `ids` was opened in turn.
    pub open spec fn navigate_all(self, ids: Seq<Seq<char>>) -> PageStack
        decreases ids.len(),
    {
        if ids.len() == 0 {
            self
        } else {
            self.navigate_all(ids.drop_last()).navigate_to(ids.last())
        }
    }

    /// The navigator after going back `n` times.
    pub open spec fn go_back_times(self, n: nat) -> PageStack
        decreases n,
    {
        if n == 0 {
            self
        } else {
            self.go_back().go_back_times((n - 1) as nat)
        }
    }
}

/// Opening any pages and then going back as many times restores the
/// stack, and with it its height.
pub proof fn lemma_navigate_then_back(pages: PageStack, ids: Seq<Seq<char>>)
    requires
        pages.stack.len() >= 1,
    ensures
        pages.navigate_all(ids).go_back_times(ids.len()) == pages,
        pages.navigate_all(ids).go_back_times(ids.len()).stack.len() == pages.stack.len(),
        pages.navigate_all(ids).stack.len() == pages.stack.len() + ids.len(),
    decreases ids.len(),
{
    if ids.len() == 0 {
    } else {
        let before = pages.navigate_all(ids.drop_last());
        lemma_navigate_then_back(pages, ids.drop_last());
        let top = before.navigate_to(ids.last());
        assert(top.can_go_back());
        assert(top.stack.drop_last() =~= before.stack);
        assert(top.go_back() == before);
    }
}

/// Going back on a stack of one page changes nothing.
pub proof fn lemma_back_at_bottom(pages: PageStack)
    requires
        pages.stack.len() == 1,
    ensures
        !pages.can_go_back(),
        pages.go_back() == pages,
{
}

/// The first button of `buttons` with the key index `key`, if any.
pub open spec fn first_button(buttons: Seq<ButtonConfig>, key: u8) -> Option<ButtonConfig>
    decreases buttons.len(),
{
    if buttons.len() == 0 {
        None
    } else if buttons[0].key == key {
        Some(buttons[0])
    } else {
        first_button(buttons.drop_first(), key)
    }
}

/// `first_button` over a list that has no button with the key before
/// `from` is `first_button` over what follows `from`.
pub proof fn lemma_first_button_skip(buttons: Seq<ButtonConfig>, key: u8, from: int)
    requires
        0 <= from <= buttons.len(),
        forall|j: int| 0 <= j < from ==> buttons[j].key != key,
    ensures
        first_button(buttons, key) == first_button(buttons.skip(from), key),
    decreases from,
{
    if from == 0 {
        assert(buttons.skip(0) =~= buttons);
    } else {
        lemma_first_button_skip(buttons, key, from - 1);
        let tail = buttons.skip(from - 1);
        assert(tail[0] == buttons[from - 1]);
        assert(tail.drop_first() =~= buttons.skip(from));
    }
}

/// The button that a page shows at `key`: the first in its list with
/// that key index.
pub fn find_button(page: &PageConfig, key: u8) -> (found: Option<&ButtonConfig>)
    ensures
        match found {
            Some(b) => first_button(page.buttons@, key) == Some(*b),
            None => first_button(page.buttons@, key) is None,
        },
{
    let mut i: usize = 0;
    while i < page.buttons.len()
        invariant
            i <= page.buttons@.len(),
            forall|j: int| 0 <= j < i ==> page.buttons@[j].key != key,
        decreases page.buttons@.len() - i,
    {
        if page.buttons[i].key == key {
            proof {
                lemma_first_button_skip(page.buttons@, key, i as int);
            }
            return Some(&page.buttons[i]);
        }
        i += 1;
    }
    proof {
        lemma_first_button_skip(page.buttons@, key, page.buttons@.len() as int);
    }
    None
}

/// The page stack and the home page's id. The stack is held as its top,
/// the current page, and the pages below it, so it is never empty.
pub struct PageManager {
    current: String,
    below: Vec<String>,
    home_page: String,
}

impl View for PageManager {
    type V = PageStack;

    closed spec fn view(&self) -> PageStack {
        PageStack {
            stack: self.below@.map_values(|s: String| s@).push(self.current@),
            home: self.home_page@,
        }
    }
}

impl PageManager {
    /// The page that `config` holds under the current page's id.
    pub open spec fn spec_current_page_config(&self, config: &AppConfig) -> Option<PageConfig> {
        config.pages.lookup(self@.current())
    }

    /// The button at `key` on the current page.
    pub open spec fn spec_button_for_key(&self, config: &AppConfig, key: u8) -> Option<
        ButtonConfig,
    > {
        match self.spec_current_page_config(config) {
            Some(page) => first_button(page.buttons@, key),
            None => None,
        }
    }

    /// A navigator that shows the home page.
    pub fn new(home_page: &str) -> (pages: Self)
        ensures
            pages@ == PageStack::start(home_page@),
    {
        let pages = PageManager {
            current: owned(home_page),
            below: Vec::new(),
            home_page: owned(home_page),
        };
        assert(pages@.stack =~= seq![home_page@]);
        pages
    }

    /// The id of the current page. The stack always holds at least it.
    pub fn current_page(&self) -> (id: &str)
        ensures
            id@ == self@.current(),
            self@.stack.len() >= 1,
    {
        self.current.as_str()
    }

    /// The number of pages on the stack, which is never zero.
    pub fn depth(&self) -> (n: usize)
        requires
            self@.stack.len() <= usize::MAX,
        ensures
            n == self@.stack.len(),
            n >= 1,
    {
        self.below.len() + 1
    }

    /// Opens a page on top of the current one. The same page may be
    /// opened again and again: each time the stack grows.
    pub fn navigate_to(&mut self, page_id: &str)
        ensures
            final(self)@ == old(self)@.navigate_to(page_id@),
    {
        self.below.push(self.current.clone());
        self.current = owned(page_id);
        assert(self@.stack =~= old(self)@.stack.push(page_id@));
    }

    /// Returns to the page below, unless the current page is the only
    /// one. Says whether the page changed.
    pub fn go_back(&mut self) -> (changed: bool)
        ensures
            changed == old(self)@.can_go_back(),
            final(self)@ == old(self)@.go_back(),
            final(self)@.stack.len() >= 1,
    {
        match self.below.pop() {
            Some(page) => {
                self.current = page;
                assert(self@.stack =~= old(self)@.stack.drop_last());
                true
            },
            None => {
                assert(self@.stack =~= old(self)@.stack);
                false
            },
        }
    }

    /// Returns to the home page and forgets the pages visited.
    pub fn go_home(&mut self)
        ensures
            final(self)@ == old(self)@.go_home(),
    {
        self.below = Vec::new();
        self.current = self.home_page.clone();
        assert(self@.stack =~= seq![old(self)@.home]);
    }

    /// The configuration of the current page, if the snapshot has it.
    pub fn current_page_config<'a>(&self, config: &'a AppConfig) -> (page: Option<&'a PageConfig>)
        ensures
            match page {
                Some(p) => self.spec_current_page_config(config) == Some(*p),
                None => self.spec_current_page_config(config) is None,
            },
    {
        config.pages.get(self.current_page())
    }

    /// The button at `key` on the current page: the first in the page's
    /// list with that key index.
    pub fn button_for_key<'a>(&self, config: &'a AppConfig, key: u8) -> (button: Option<
        &'a ButtonConfig,
    >)
        ensures
            match button {
                Some(b) => self.spec_button_for_key(config, key) == Some(*b),
                None => self.spec_button_for_key(config, key) is None,
            },
    {
        match self.current_page_config(config) {
            Some(page) => find_button(page, key),
            None => None,
        }
    }

    /// Names another home page; the stack stays as it is.
    pub fn set_home_page(&mut self, home: &str)
        ensures
            final(self)@ == old(self)@.set_home_page(home@),
    {
        self.home_page = owned(home);
    }
}

} // verus!
