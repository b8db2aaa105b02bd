use vstd::prelude::*;

verus! {

/// `i` is the first registration whose method is `m`.
pub open spec fn is_first_claim(methods: Seq<Seq<char>>, m: Seq<char>, i: int) -> bool {
    &&& 0 <= i < methods.len()
    &&& methods[i] == m
    &&& forall|j: int| 0 <= j < i ==> methods[j] != m
}

/// The registration that claims a message with method `m`, if any does.
pub open spec fn first_claim(methods: Seq<Seq<char>>, m: Seq<char>) -> Option<int> {
    if exists|i: int| is_first_claim(methods, m, i) {
        Some(choose|i: int| is_first_claim(methods, m, i))
    } else {
        None
    }
}

/// An ordered list of method registrations of one kind of message
/// (requests or notifications). A registration is named by its position.
pub struct Dispatcher {
    methods: Vec<String>,
}

impl View for Dispatcher {
    type V = Seq<Seq<char>>;

    closed spec fn view(&self) -> Seq<Seq<char>> {
        self.methods@.map_values(|s: String| s@)
    }
}

impl Dispatcher {
    /// A dispatcher with no registration.
    pub fn new() -> (r: Dispatcher)
        ensures
            r@ == Seq::<Seq<char>>::empty(),
    {
        let r = Dispatcher { methods: Vec::new() };
        assert(r@ =~= Seq::<Seq<char>>::empty());
        r
    }

    /// Adds a registration for `method` after the others and returns its
    /// position.
    pub fn register(&mut self, method: String) -> (r: usize)
        requires
            old(self)@.len() < usize::MAX,
        ensures
            final(self)@ == old(self)@.push(method@),
            r == old(self)@.len(),
    {
        let r = self.methods.len();
        let ghost m = method@;
        self.methods.push(method);
        assert(self@ =~= old(self)@.push(m));
        r
    }

    pub fn len(&self) -> (r: usize)
        ensures
            r == self@.len(),
    {
        self.methods.len()
    }

    /// The first registration, in order, whose method equals `method`.
    pub fn claim(&self, method: &String) -> (r: Option<usize>)
        ensures
            match r {
                Some(i) => is_first_claim(self@, method@, i as int),
                None => forall|j: int| 0 <= j < self@.len() ==> self@[j] != method@,
            },
            r == match first_claim(self@, method@) {
                Some(i) => Some(i as usize),
                None => None::<usize>,
            },
    {
        let mut i: usize = 0;
        while i < self.methods.len()
            invariant
                i <= self@.len(),
                self@.len() == self.methods@.len(),
                forall|j: int| 0 <= j < i ==> self@[j] != method@,
            decreases self.methods@.len() - i,
        {
            if self.methods[i].eq(method) {
                let ghost k = i as int;
                assert(is_first_claim(self@, method@, k));
                let ghost c = choose|c: int| is_first_claim(self@, method@, c);
                assert(c == k);
                return Some(i);
            }
            i = i + 1;
        }
        None
    }
}

} // verus!
