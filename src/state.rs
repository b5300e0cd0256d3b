use vstd::prelude::*;

verus! {

/// The single configuration record of the contract.
#[derive(Clone, Debug, PartialEq, Eq)]
pub struct Config {
    /// The identity allowed to manage the whitelist; fixed at instantiation.
    pub admin: String,
    /// The token contract's address, absent until the instantiate reply binds it.
    pub token_contract: Option<String>,
}

/// The contract's persistent store: the configuration slot and the whitelist set.
#[derive(Clone, Debug, PartialEq, Eq)]
pub struct Store {
    config: Config,
    whitelist: Vec<String>,
}

impl Store {
    /// No address is held twice in the whitelist.
    pub closed spec fn wf(&self) -> bool {
        forall|i: int, j: int|
            0 <= i < j < self.whitelist@.len() ==> #[trigger] self.whitelist@[i]@
                != #[trigger] self.whitelist@[j]@
    }

    pub closed spec fn config_view(&self) -> Config {
        self.config
    }

    /// The set of whitelisted addresses.
    pub closed spec fn whitelist_view(&self) -> Set<Seq<char>> {
        Set::new(
            |a: Seq<char>|
                exists|i: int| 0 <= i < self.whitelist@.len() && #[trigger] self.whitelist@[i]@ == a,
        )
    }

    pub open spec fn admin_view(&self) -> Seq<char> {
        self.config_view().admin@
    }

    pub open spec fn token_view(&self) -> Option<Seq<char>> {
        match self.config_view().token_contract {
            Some(t) => Some(t@),
            None => None,
        }
    }

    /// The capability to mint: being the admin or being whitelisted.
    pub open spec fn may_mint(&self, sender: Seq<char>) -> bool {
        sender == self.admin_view() || self.whitelist_view().contains(sender)
    }

    /// A store holding `config` and an empty whitelist.
    pub fn new(config: Config) -> (s: Store)
        ensures
            s.wf(),
            s.config_view() == config,
            s.whitelist_view() == Set::<Seq<char>>::empty(),
    {
        let s = Store { config, whitelist: Vec::new() };
        assert(s.whitelist_view() =~= Set::<Seq<char>>::empty());
        s
    }

    /// A store holding `config` and the addresses of `whitelist`, each once.
    pub fn from_parts(config: Config, whitelist: Vec<String>) -> (s: Store)
        ensures
            s.wf(),
            s.config_view() == config,
            forall|a: Seq<char>|
                s.whitelist_view().contains(a) <==> exists|i: int|
                    0 <= i < whitelist@.len() && #[trigger] whitelist@[i]@ == a,
    {
        let mut s = Store::new(config);
        let mut k: usize = 0;
        while k < whitelist.len()
            invariant
                k <= whitelist@.len(),
                s.wf(),
                s.config_view() == config,
                forall|a: Seq<char>|
                    s.whitelist_view().contains(a) <==> exists|i: int|
                        0 <= i < k && #[trigger] whitelist@[i]@ == a,
            decreases whitelist@.len() - k,
        {
            let ghost before = s.whitelist_view();
            s.whitelist_insert(whitelist[k].clone());
            assert forall|a: Seq<char>|
                s.whitelist_view().contains(a) <==> exists|i: int|
                    0 <= i < k + 1 && #[trigger] whitelist@[i]@ == a by {
                if s.whitelist_view().contains(a) && a != whitelist@[k as int]@ {
                    assert(before.contains(a));
                }
                if a == whitelist@[k as int]@ {
                    assert(0 <= k < k + 1 && whitelist@[k as int]@ == a);
                }
            }
            k = k + 1;
        }
        s
    }

    pub fn config(&self) -> (r: &Config)
        ensures
            *r == self.config_view(),
    {
        &self.config
    }

    fn index_of(&self, a: &String) -> (r: Option<usize>)
        requires
            self.wf(),
        ensures
            match r {
                Some(i) => i < self.whitelist@.len() && self.whitelist@[i as int]@ == a@,
                None => !self.whitelist_view().contains(a@),
            },
    {
        let mut i: usize = 0;
        while i < self.whitelist.len()
            invariant
                i <= self.whitelist@.len(),
                forall|j: int| 0 <= j < i ==> #[trigger] self.whitelist@[j]@ != a@,
            decreases self.whitelist@.len() - i,
        {
            if self.whitelist[i] == *a {
                return Some(i);
            }
            i = i + 1;
        }
        None
    }

    /// Whether `a` is whitelisted.
    pub fn is_whitelisted(&self, a: &String) -> (r: bool)
        requires
            self.wf(),
        ensures
            r == self.whitelist_view().contains(a@),
    {
        self.index_of(a).is_some()
    }

    /// Adds `a` to the whitelist; adding a present address changes nothing.
    pub fn whitelist_insert(&mut self, a: String)
        requires
            old(self).wf(),
        ensures
            final(self).wf(),
            final(self).config_view() == old(self).config_view(),
            final(self).whitelist_view() == old(self).whitelist_view().insert(a@),
    {
        let found = self.index_of(&a);
        if found.is_some() {
            assert(self.whitelist_view() =~= old(self).whitelist_view().insert(a@));
        } else {
            let ghost av = a@;
            self.whitelist.push(a);
            let ghost w = self.whitelist@;
            assert(w[w.len() - 1]@ == av);
            assert forall|x: Seq<char>|
                self.whitelist_view().contains(x) <==> old(self).whitelist_view().insert(av).contains(
                    x,
                ) by {
                if old(self).whitelist_view().contains(x) {
                    let i = choose|i: int|
                        0 <= i < old(self).whitelist@.len() && #[trigger] old(
                            self,
                        ).whitelist@[i]@ == x;
                    assert(w[i]@ == x);
                }
            }
            assert(self.whitelist_view() =~= old(self).whitelist_view().insert(av));
        }
    }

    /// Removes `a` from the whitelist; removing an absent address changes nothing.
    pub fn whitelist_remove(&mut self, a: &String)
        requires
            old(self).wf(),
        ensures
            final(self).wf(),
            final(self).config_view() == old(self).config_view(),
            final(self).whitelist_view() == old(self).whitelist_view().remove(a@),
    {
        match self.index_of(a) {
            None => {
                assert(self.whitelist_view() =~= old(self).whitelist_view().remove(a@));
            },
            Some(k) => {
                let ghost o = self.whitelist@;
                self.whitelist.remove(k);
                let ghost w = self.whitelist@;
                assert(w =~= o.remove(k as int));
                assert forall|x: Seq<char>|
                    self.whitelist_view().contains(x) <==> old(self).whitelist_view().remove(
                        a@,
                    ).contains(x) by {
                    if self.whitelist_view().contains(x) {
                        let i = choose|i: int| 0 <= i < w.len() && #[trigger] w[i]@ == x;
                        if i < k {
                            assert(o[i]@ == x);
                        } else {
                            assert(o[i + 1]@ == x);
                        }
                    }
                    if old(self).whitelist_view().remove(a@).contains(x) {
                        let i = choose|i: int| 0 <= i < o.len() && #[trigger] o[i]@ == x;
                        if i < k {
                            assert(w[i]@ == x);
                        } else {
                            assert(i != k);
                            assert(w[i - 1]@ == x);
                        }
                    }
                }
                assert(self.whitelist_view() =~= old(self).whitelist_view().remove(a@));
            },
        }
    }

    /// Binds the token contract's address into the configuration.
    pub fn set_token_contract(&mut self, addr: String)
        requires
            old(self).wf(),
        ensures
            final(self).wf(),
            final(self).whitelist_view() == old(self).whitelist_view(),
            final(self).config_view().admin == old(self).config_view().admin,
            final(self).config_view().token_contract == Some(addr),
    {
        self.config.token_contract = Some(addr);
        assert(self.whitelist_view() =~= old(self).whitelist_view());
    }
}

} // verus!
