//! The addresses at which libraries were deployed, by library name.
use vstd::prelude::*;
use vstd::string::*;
use crate::address::Address;
use crate::hex::{encode, hex_encoded};
use crate::keyed::distinct_keys;

verus! {

/// One library name with the address it was deployed at.
#[derive(Debug, PartialEq, Eq)]
pub struct Binding {
    pub name: String,
    pub address: Address,
}

impl View for Binding {
    type V = (Seq<char>, Address);

    open spec fn view(&self) -> (Seq<char>, Address) {
        (self.name@, self.address)
    }
}

/// One library address as the compiler reads it: `name:0x` and forty digits.
pub open spec fn binding_text(entry: (Seq<char>, Address)) -> Seq<char> {
    entry.0 + ":0x"@ + hex_encoded(entry.1@)
}

/// The lines of an address file: one binding to a line, each line ended.
pub open spec fn address_lines(entries: Seq<(Seq<char>, Address)>) -> Seq<char>
    decreases entries.len(),
{
    if entries.len() == 0 {
        Seq::empty()
    } else {
        address_lines(entries.drop_last()) + binding_text(entries.last()) + "\n"@
    }
}

impl Binding {
    /// The binding as the compiler reads it: `name:0x` and forty digits.
    pub fn text(&self) -> (text: String)
        ensures
            text@ == binding_text(self@),
    {
        let mut text = self.name.clone();
        text.append(":0x");
        let digits = encode(self.address.bytes.as_slice());
        text.append(digits.as_str());
        text
    }

    /// A binding of `name` to `address`.
    pub fn new(name: &str, address: Address) -> (binding: Binding)
        ensures
            binding@ == (name@, address),
    {
        Binding { name: String::from_str(name), address }
    }

    /// A second value with the same name and address.
    pub fn copy(&self) -> (binding: Binding)
        ensures
            binding@ == self@,
    {
        Binding { name: self.name.clone(), address: self.address }
    }
}

/// The bindings held by a sequence of `Binding`s, in order.
pub open spec fn bindings(held: Seq<Binding>) -> Seq<(Seq<char>, Address)> {
    Seq::new(held.len(), |i: int| held[i]@)
}

/// The address that the latest binding of `name` gives, if there is one.
pub open spec fn lookup(entries: Seq<(Seq<char>, Address)>, name: Seq<char>) -> Option<Address>
    decreases entries.len(),
{
    if entries.len() == 0 {
        None
    } else if entries.last().0 == name {
        Some(entries.last().1)
    } else {
        lookup(entries.drop_last(), name)
    }
}

/// Copies a list of bindings.
pub fn copy_bindings(held: &Vec<Binding>) -> (copy: Vec<Binding>)
    ensures
        bindings(copy@) == bindings(held@),
{
    let mut copy: Vec<Binding> = Vec::new();
    let mut i: usize = 0;
    while i < held.len()
        invariant
            i <= held.len(),
            copy.len() == i,
            forall|k: int| 0 <= k < i ==> copy@[k]@ == held@[k]@,
        decreases held.len() - i,
    {
        copy.push(held[i].copy());
        i = i + 1;
    }
    proof {
        assert(bindings(copy@) =~= bindings(held@));
    }
    copy
}

/// Why a registry refused a request.
#[derive(Clone, Copy, Debug, PartialEq, Eq)]
pub enum BindError {
    /// The name already has an address in this run.
    AlreadyBound,
}

/// Library addresses recorded during one deployment run, in deployment order.
#[derive(Debug)]
pub struct LibraryRegistry {
    held: Vec<Binding>,
}

impl View for LibraryRegistry {
    type V = Seq<(Seq<char>, Address)>;

    closed spec fn view(&self) -> Seq<(Seq<char>, Address)> {
        bindings(self.held@)
    }
}

impl LibraryRegistry {
    /// Every name is bound at most once.
    pub open spec fn valid(&self) -> bool {
        distinct_keys(self@)
    }

    /// A registry with no binding.
    pub fn new() -> (registry: LibraryRegistry)
        ensures
            registry@ == Seq::<(Seq<char>, Address)>::empty(),
            registry.valid(),
    {
        let registry = LibraryRegistry { held: Vec::new() };
        proof {
            assert(registry@ =~= Seq::<(Seq<char>, Address)>::empty());
        }
        registry
    }

    /// The number of libraries bound so far.
    pub fn len(&self) -> (count: usize)
        ensures
            count == self@.len(),
    {
        self.held.len()
    }

    /// The address bound to `name`, or `None` while the library is unbound.
    pub fn address_of(&self, name: &str) -> (found: Option<Address>)
        ensures
            found == lookup(self@, name@),
    {
        let wanted = String::from_str(name);
        let mut i: usize = self.held.len();
        proof {
            assert(self@.take(i as int) =~= self@);
        }
        while i > 0
            invariant
                i <= self.held.len(),
                wanted@ == name@,
                lookup(self@, name@) == lookup(self@.take(i as int), name@),
            decreases i,
        {
            proof {
                assert(self@.take(i as int).drop_last() =~= self@.take(i as int - 1));
                assert(self@.take(i as int).last() == self.held@[i as int - 1]@);
            }
            i = i - 1;
            if self.held[i].name == wanted {
                return Some(self.held[i].address);
            }
        }
        None
    }

    /// Records the address of a freshly deployed library. A name that is
    /// already bound is refused and the registry stays as it was.
    pub fn bind(&mut self, name: &str, address: Address) -> (result: Result<(), BindError>)
        requires
            old(self).valid(),
        ensures
            final(self).valid(),
            lookup(old(self)@, name@) is Some ==> result == Err::<(), BindError>(
                BindError::AlreadyBound,
            ) && final(self)@ == old(self)@,
            lookup(old(self)@, name@) is None ==> result is Ok && final(self)@ == old(self)@.push(
                (name@, address),
            ),
    {
        if self.address_of(name).is_some() {
            return Err(BindError::AlreadyBound);
        }
        let ghost before = self@;
        self.held.push(Binding::new(name, address));
        proof {
            assert(self@ =~= before.push((name@, address)));
            lemma_unbound_name_is_new(before, name@);
        }
        Ok(())
    }

    /// The text of an address file: one `name:0x...` line for each library,
    /// in deployment order.
    pub fn address_file(&self) -> (text: String)
        ensures
            text@ == address_lines(self@),
    {
        let mut text = String::new();
        let mut i: usize = 0;
        proof {
            assert(self@.take(0) =~= Seq::<(Seq<char>, Address)>::empty());
        }
        while i < self.held.len()
            invariant
                i <= self.held.len(),
                text@ == address_lines(self@.take(i as int)),
            decreases self.held.len() - i,
        {
            proof {
                assert(self@.take(i as int + 1).drop_last() =~= self@.take(i as int));
                assert(self@.take(i as int + 1).last() == self.held@[i as int]@);
            }
            let line = self.held[i].text();
            text.append(line.as_str());
            text.append("\n");
            i = i + 1;
        }
        proof {
            assert(self@.take(self.held.len() as int) =~= self@);
        }
        text
    }

    /// The bindings in deployment order, as the linking compile pass takes them.
    pub fn to_link_bindings(&self) -> (list: Vec<Binding>)
        ensures
            bindings(list@) == self@,
    {
        copy_bindings(&self.held)
    }
}

/// A name without an address stands in no binding.
pub proof fn lemma_unbound_name_is_new(entries: Seq<(Seq<char>, Address)>, name: Seq<char>)
    requires
        lookup(entries, name) is None,
    ensures
        forall|i: int| 0 <= i < entries.len() ==> (#[trigger] entries[i]).0 != name,
    decreases entries.len(),
{
    if entries.len() > 0 {
        lemma_unbound_name_is_new(entries.drop_last(), name);
        assert forall|i: int| 0 <= i < entries.len() implies (#[trigger] entries[i]).0 != name by {
            if i < entries.len() - 1 {
                assert(entries.drop_last()[i] == entries[i]);
            }
        }
    }
}

/// A name that is bound and then asked for gives the address it was bound to,
/// and the other names give what they gave before.
pub proof fn lemma_bind_then_lookup(
    entries: Seq<(Seq<char>, Address)>,
    name: Seq<char>,
    address: Address,
    asked: Seq<char>,
)
    ensures
        lookup(entries.push((name, address)), name) == Some(address),
        asked != name ==> lookup(entries.push((name, address)), asked) == lookup(entries, asked),
{
    assert(entries.push((name, address)).drop_last() =~= entries);
}

/// A registry without bindings gives no address for any name.
pub proof fn lemma_empty_is_unbound(name: Seq<char>)
    ensures
        lookup(Seq::<(Seq<char>, Address)>::empty(), name) is None,
{
}

} // verus!
