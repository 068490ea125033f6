pub mod x86_64;

use std::collections::HashMap;

use kvm_bindings::kvm_irq_routing_entry;
use kvm_bindings::kvm_irq_routing_entry__bindgen_ty_1;
use kvm_bindings::KvmIrqRouting;
use vmm_sys_util::fam::Error as FamError;
use vstd::prelude::*;

verus! {

/// A KVM interrupt routing table (`KvmIrqRouting` of `kvm_bindings`), ready to be installed.
#[verifier::external_body]
pub struct KvmIrqRoutingTable {
    pub table: KvmIrqRouting,
}

#[verifier::external_type_specification]
#[verifier::external_body]
pub struct ExFamError(FamError);

/// The routes that a KVM routing table holds, in order, each as
/// `(gsi, type, word0, word1, word2)`: its number, its type, and the first three words of its
/// destination (`irqchip, pin` of an irqchip route, `address_lo, address_hi, data` of an MSI
/// route); the flags and the rest of the destination are zero.
pub uninterp spec fn kvm_routing_entries(table: KvmIrqRoutingTable) -> Seq<(u32, u32, u32, u32, u32)>;

/// The most routes a KVM routing table holds (`KVM_MAX_IRQ_ROUTES`).
pub const KVM_MAX_IRQ_ROUTES: usize = 4096;

/// `FamStructWrapper::new` of `vmm_sys_util`, for KVM routing tables: a table of `len` zeroed
/// routes; it fails exactly when `len` exceeds the most routes a table holds.
#[verifier::external_body]
fn new_kvm_routing_table(len: usize) -> (r: Result<KvmIrqRoutingTable, FamError>)
    ensures
        r is Ok <==> len <= KVM_MAX_IRQ_ROUTES,
        r matches Ok(table) ==> kvm_routing_entries(table) == Seq::new(
            len as nat,
            |i: int| (0u32, 0u32, 0u32, 0u32, 0u32),
        ),
{
    KvmIrqRouting::new(len).map(|table| KvmIrqRoutingTable { table })
}

/// `FamStructWrapper::push` of `vmm_sys_util`: appends the route `(gsi, type_)` whose
/// destination union starts with the three words of `words` (the rest of it zeroed); fails,
/// changing nothing, exactly when the table is full.
#[verifier::external_body]
fn push_routing_entry(
    table: &mut KvmIrqRoutingTable,
    gsi: u32,
    type_: u32,
    words: (u32, u32, u32),
) -> (r: Result<(), FamError>)
    ensures
        r is Ok <==> kvm_routing_entries(*old(table)).len() < KVM_MAX_IRQ_ROUTES,
        r is Ok ==> kvm_routing_entries(*final(table)) == kvm_routing_entries(*old(table)).push(
            (gsi, type_, words.0, words.1, words.2),
        ),
        r is Err ==> kvm_routing_entries(*final(table)) == kvm_routing_entries(*old(table)),
{
    table.table.push(kvm_irq_routing_entry {
        gsi,
        type_,
        flags: 0,
        pad: 0,
        u: kvm_irq_routing_entry__bindgen_ty_1 { pad: [words.0, words.1, words.2, 0, 0, 0, 0, 0] },
    })
}

/// Where an interrupt route delivers.
#[derive(Clone, Copy, Debug, PartialEq, Eq, Structural)]
pub enum KvmGsiRoutingEntryU {
    /// To a pin of an interrupt controller chip.
    Irqchip { irqchip: u32, pin: u32 },
    /// As a message-signalled interrupt.
    Msi { address_lo: u32, address_hi: u32, data: u32 },
}

/// The kind of an interrupt route; KVM numbers an irqchip route 1 and an MSI route 2.
#[derive(Clone, Copy, Debug, PartialEq, Eq, Structural)]
pub enum KvmGsiRoutingEntryType {
    Irqchip,
    Msi,
}

impl KvmGsiRoutingEntryType {
    /// The number by which KVM knows this kind of route.
    pub fn as_u32(&self) -> (r: u32)
        ensures
            r == match self {
                KvmGsiRoutingEntryType::Irqchip => 1u32,
                KvmGsiRoutingEntryType::Msi => 2u32,
            },
    {
        match self {
            KvmGsiRoutingEntryType::Irqchip => 1,
            KvmGsiRoutingEntryType::Msi => 2,
        }
    }
}

/// A route from a global system interrupt number to its destination.
#[derive(Clone, Copy, Debug, PartialEq, Eq, Structural)]
pub struct KvmGsiRoutingEntry {
    pub gsi: u32,
    pub type_: KvmGsiRoutingEntryType,
    pub u: KvmGsiRoutingEntryU,
}

/// The route of `gsi` to `pin` of `irqchip`.
pub open spec fn intx_entry(gsi: u32, irqchip: u32, pin: u32) -> KvmGsiRoutingEntry {
    KvmGsiRoutingEntry {
        gsi,
        type_: KvmGsiRoutingEntryType::Irqchip,
        u: KvmGsiRoutingEntryU::Irqchip { irqchip, pin },
    }
}

/// The route of `gsi` to the message `data` at address `address_hi:address_lo`.
pub open spec fn msi_entry(gsi: u32, address_lo: u32, address_hi: u32, data: u32) -> KvmGsiRoutingEntry {
    KvmGsiRoutingEntry {
        gsi,
        type_: KvmGsiRoutingEntryType::Msi,
        u: KvmGsiRoutingEntryU::Msi { address_lo, address_hi, data },
    }
}

/// How a KVM routing table holds `e`: `(gsi, type, word0, word1, word2)`.
pub open spec fn route_item(e: KvmGsiRoutingEntry) -> (u32, u32, u32, u32, u32) {
    let type_ = match e.type_ {
        KvmGsiRoutingEntryType::Irqchip => 1u32,
        KvmGsiRoutingEntryType::Msi => 2u32,
    };
    match e.u {
        KvmGsiRoutingEntryU::Irqchip { irqchip, pin } => (e.gsi, type_, irqchip, pin, 0u32),
        KvmGsiRoutingEntryU::Msi { address_lo, address_hi, data } => (
            e.gsi,
            type_,
            address_lo,
            address_hi,
            data,
        ),
    }
}

/// How a route is laid out in a KVM routing table, and what the routes of `intx_entry` and
/// `msi_entry` are: the number first; then KVM's type number, 1 for a pin route and 2 for an MSI
/// route; then for a pin route its chip, its pin and a zero word, and for an MSI route the low
/// address word, the high address word and the data, in this order.
pub proof fn lemma_route_fields(e: KvmGsiRoutingEntry)
    ensures
        route_item(e).0 == e.gsi,
        e.type_ == KvmGsiRoutingEntryType::Irqchip ==> route_item(e).1 == 1,
        e.type_ == KvmGsiRoutingEntryType::Msi ==> route_item(e).1 == 2,
        e.u matches KvmGsiRoutingEntryU::Irqchip { irqchip, pin } ==> (route_item(e).2 == irqchip
            && route_item(e).3 == pin && route_item(e).4 == 0),
        e.u matches KvmGsiRoutingEntryU::Msi { address_lo, address_hi, data } ==> (route_item(e).2
            == address_lo && route_item(e).3 == address_hi && route_item(e).4 == data),
        forall|gsi: u32, irqchip: u32, pin: u32|
            #![trigger intx_entry(gsi, irqchip, pin)]
            intx_entry(gsi, irqchip, pin).gsi == gsi && intx_entry(gsi, irqchip, pin).type_
                == KvmGsiRoutingEntryType::Irqchip && intx_entry(gsi, irqchip, pin).u
                == (KvmGsiRoutingEntryU::Irqchip { irqchip, pin }),
        forall|gsi: u32, address_lo: u32, address_hi: u32, data: u32|
            #![trigger msi_entry(gsi, address_lo, address_hi, data)]
            msi_entry(gsi, address_lo, address_hi, data).gsi == gsi && msi_entry(
                gsi,
                address_lo,
                address_hi,
                data,
            ).type_ == KvmGsiRoutingEntryType::Msi && msi_entry(gsi, address_lo, address_hi, data).u
                == (KvmGsiRoutingEntryU::Msi { address_lo, address_hi, data }),
{
}

/// `n` zeroed routes.
pub open spec fn zeroed_routes(n: nat) -> Seq<(u32, u32, u32, u32, u32)> {
    Seq::new(n, |i: int| (0u32, 0u32, 0u32, 0u32, 0u32))
}

/// Why a KVM routing table could not be built.
#[derive(Debug, Clone, Copy, PartialEq, Eq, Structural)]
pub enum GsiRoutingError {
    /// More routes than a table holds.
    SizeLimitExceeded,
}

/// Appends `e` to `table`.
fn push_route(table: &mut KvmIrqRoutingTable, e: &KvmGsiRoutingEntry) -> (r: Result<
    (),
    GsiRoutingError,
>)
    ensures
        r is Ok <==> kvm_routing_entries(*old(table)).len() < KVM_MAX_IRQ_ROUTES,
        r is Ok ==> kvm_routing_entries(*final(table)) == kvm_routing_entries(*old(table)).push(
            route_item(*e),
        ),
        r is Ok ==> (e.u matches KvmGsiRoutingEntryU::Msi { address_lo, address_hi, data } ==> ({
            let last = kvm_routing_entries(*final(table)).last();
            last.0 == e.gsi && last.2 == address_lo && last.3 == address_hi && last.4 == data
        })),
        r is Ok ==> (e.u matches KvmGsiRoutingEntryU::Irqchip { irqchip, pin } ==> ({
            let last = kvm_routing_entries(*final(table)).last();
            last.0 == e.gsi && last.2 == irqchip && last.3 == pin && last.4 == 0
        })),
        r is Ok ==> (e.type_ == KvmGsiRoutingEntryType::Msi ==> kvm_routing_entries(
            *final(table),
        ).last().1 == 2) && (e.type_ == KvmGsiRoutingEntryType::Irqchip ==> kvm_routing_entries(
            *final(table),
        ).last().1 == 1),
        r is Err ==> kvm_routing_entries(*final(table)) == kvm_routing_entries(*old(table)),
{
    proof {
        lemma_route_fields(*e);
    }
    let words = match e.u {
        KvmGsiRoutingEntryU::Irqchip { irqchip, pin } => (irqchip, pin, 0),
        KvmGsiRoutingEntryU::Msi { address_lo, address_hi, data } => (address_lo, address_hi, data),
    };
    match push_routing_entry(table, e.gsi, e.type_.as_u32(), words) {
        Ok(()) => Ok(()),
        Err(_) => Err(GsiRoutingError::SizeLimitExceeded),
    }
}

/// The interrupt routes of a machine: fixed routes to interrupt controller pins, and
/// message-signalled routes, at most one for each interrupt number.
pub struct KvmGsiRouting {
    nr: u32,
    irqchip_entries: Vec<KvmGsiRoutingEntry>,
    msi_entryies: HashMap<u32, KvmGsiRoutingEntry>,
}

impl Default for KvmGsiRouting {
    /// No route.
    fn default() -> (r: Self)
        ensures
            r.wf(),
            r.irqchip_routes() == Seq::<KvmGsiRoutingEntry>::empty(),
            r.msi_routes() == Map::<u32, KvmGsiRoutingEntry>::empty(),
            r.initial_len() == 0,
    {
        KvmGsiRouting { nr: 0, irqchip_entries: Vec::new(), msi_entryies: HashMap::new() }
    }
}

impl KvmGsiRouting {
    /// The routes to interrupt controller pins, in the order they were added.
    pub closed spec fn irqchip_routes(&self) -> Seq<KvmGsiRoutingEntry> {
        self.irqchip_entries@
    }

    /// The message-signalled routes, by interrupt number.
    pub closed spec fn msi_routes(&self) -> Map<u32, KvmGsiRoutingEntry> {
        self.msi_entryies@
    }

    /// The number of zeroed routes that the table for KVM starts with.
    pub closed spec fn initial_len(&self) -> u32 {
        self.nr
    }

    /// Each message-signalled route is an MSI route of the number it is kept under.
    pub closed spec fn wf(&self) -> bool {
        forall|gsi: u32| #[trigger]
            self.msi_entryies@.contains_key(gsi) ==> self.msi_entryies@[gsi].gsi == gsi
                && self.msi_entryies@[gsi].type_ == KvmGsiRoutingEntryType::Msi
                && self.msi_entryies@[gsi].u is Msi
    }

    /// Adds the route of `gsi` to `pin` of `irqchip`.
    pub fn add_intx_gsi_routing(&mut self, gsi: u32, irqchip: u32, pin: u32)
        requires
            old(self).wf(),
        ensures
            final(self).wf(),
            final(self).irqchip_routes() == old(self).irqchip_routes().push(
                intx_entry(gsi, irqchip, pin),
            ),
            final(self).msi_routes() == old(self).msi_routes(),
            final(self).initial_len() == old(self).initial_len(),
    {
        self.irqchip_entries.push(
            KvmGsiRoutingEntry {
                gsi,
                type_: KvmGsiRoutingEntryType::Irqchip,
                u: KvmGsiRoutingEntryU::Irqchip { irqchip, pin },
            },
        );
    }

    /// Routes `gsi` to the message `data` at `address_hi:address_lo`; tells whether the
    /// routes changed.
    pub fn insert_or_update_msi_gsi_routing(
        &mut self,
        gsi: u32,
        address_lo: u32,
        address_hi: u32,
        data: u32,
    ) -> (changed: bool)
        requires
            old(self).wf(),
        ensures
            final(self).wf(),
            changed <==> !(old(self).msi_routes().contains_key(gsi) && old(self).msi_routes()[gsi]
                == msi_entry(gsi, address_lo, address_hi, data)),
            final(self).msi_routes() == old(self).msi_routes().insert(
                gsi,
                msi_entry(gsi, address_lo, address_hi, data),
            ),
            final(self).irqchip_routes() == old(self).irqchip_routes(),
            final(self).initial_len() == old(self).initial_len(),
    {
        let new = KvmGsiRoutingEntry {
            gsi,
            type_: KvmGsiRoutingEntryType::Msi,
            u: KvmGsiRoutingEntryU::Msi { address_lo, address_hi, data },
        };
        match self.msi_entryies.get(&gsi) {
            Some(old) => {
                if *old == new {
                    assert(self.msi_entryies@ =~= self.msi_entryies@.insert(gsi, new));
                    return false;
                }
            },
            None => {},
        }
        self.msi_entryies.insert(gsi, new);
        true
    }

    /// The table of routes to hand to KVM: the zeroed routes it starts with, then the routes to
    /// interrupt controller pins in the order they were added, then the message-signalled
    /// routes in the order the map yields them. It fails when there are more routes than a
    /// table holds.
    pub fn to_kvm_irq_routing(&self) -> (r: Result<KvmIrqRoutingTable, GsiRoutingError>)
        ensures
            r is Ok <==> self.initial_len() + self.irqchip_routes().len() + self.msi_routes().dom().len()
                <= KVM_MAX_IRQ_ROUTES,
            r is Err ==> r == Err::<KvmIrqRoutingTable, GsiRoutingError>(
                GsiRoutingError::SizeLimitExceeded,
            ),
            r matches Ok(table) ==> exists|msi_order: Seq<KvmGsiRoutingEntry>|
                {
                    &&& msi_order.len() == self.msi_routes().dom().len()
                    &&& msi_order.to_set() == self.msi_routes().values()
                    &&& kvm_routing_entries(table) == zeroed_routes(self.initial_len() as nat)
                        + self.irqchip_routes().map_values(|e| route_item(e))
                        + msi_order.map_values(|e| route_item(e))
                },
            r matches Ok(table) ==> forall|i: int|
                0 <= i < self.irqchip_routes().len() && (#[trigger] self.irqchip_routes()[i]).type_
                    == KvmGsiRoutingEntryType::Irqchip ==> (self.irqchip_routes()[i].u matches KvmGsiRoutingEntryU::Irqchip { irqchip, pin } ==> kvm_routing_entries(table)[self.initial_len() + i]
                    == (self.irqchip_routes()[i].gsi, 1u32, irqchip, pin, 0u32)),
            r matches Ok(table) ==> forall|g: u32|
                #[trigger] self.msi_routes().contains_key(g) && self.msi_routes()[g].type_
                    == KvmGsiRoutingEntryType::Msi ==> (self.msi_routes()[g].u matches KvmGsiRoutingEntryU::Msi { address_lo, address_hi, data } ==> kvm_routing_entries(table).contains(
                    (self.msi_routes()[g].gsi, 2u32, address_lo, address_hi, data),
                )),
    {
        let ghost total = self.initial_len() + self.irqchip_routes().len()
            + self.msi_routes().dom().len();
        let mut table = match new_kvm_routing_table(self.nr as usize) {
            Ok(table) => table,
            Err(_) => return Err(GsiRoutingError::SizeLimitExceeded),
        };
        let ghost zeros = zeroed_routes(self.nr as nat);
        assert(kvm_routing_entries(table) =~= zeros);
        let mut i: usize = 0;
        while i < self.irqchip_entries.len()
            invariant
                i <= self.irqchip_entries@.len(),
                self.nr <= KVM_MAX_IRQ_ROUTES,
                zeros == zeroed_routes(self.nr as nat),
                total == self.initial_len() + self.irqchip_routes().len()
                    + self.msi_routes().dom().len(),
                kvm_routing_entries(table) == zeros + self.irqchip_entries@.subrange(
                    0,
                    i as int,
                ).map_values(|e| route_item(e)),
                kvm_routing_entries(table).len() <= KVM_MAX_IRQ_ROUTES,
            decreases self.irqchip_entries@.len() - i,
        {
            let ghost before = kvm_routing_entries(table);
            match push_route(&mut table, &self.irqchip_entries[i]) {
                Ok(()) => {},
                Err(e) => {
                    assert(total > KVM_MAX_IRQ_ROUTES);
                    return Err(e);
                },
            }
            assert(self.irqchip_entries@.subrange(0, i + 1) =~= self.irqchip_entries@.subrange(
                0,
                i as int,
            ).push(self.irqchip_entries@[i as int]));
            assert(kvm_routing_entries(table) =~= zeros + self.irqchip_entries@.subrange(
                0,
                i + 1,
            ).map_values(|e| route_item(e)));
            i += 1;
        }
        assert(self.irqchip_entries@.subrange(0, i as int) =~= self.irqchip_entries@);
        let ghost prefix = kvm_routing_entries(table);
        let ghost mut seen: Seq<KvmGsiRoutingEntry> = Seq::empty();
        for entry in it: self.msi_entryies.values()
            invariant
                prefix == zeros + self.irqchip_routes().map_values(|e| route_item(e)),
                total == self.initial_len() + self.irqchip_routes().len()
                    + self.msi_routes().dom().len(),
                prefix.len() == self.initial_len() + self.irqchip_routes().len(),
                it.seq().len() == self.msi_routes().dom().len(),
                it.seq().unref().to_set() == self.msi_routes().values(),
                seen == it.seq().take(it.index()).unref(),
                it.index() == it.seq().len() ==> seen.len() == self.msi_routes().dom().len()
                    && seen.to_set() == self.msi_routes().values(),
                kvm_routing_entries(table) == prefix + seen.map_values(|e| route_item(e)),
                kvm_routing_entries(table).len() <= KVM_MAX_IRQ_ROUTES,
        {
            match push_route(&mut table, entry) {
                Ok(()) => {},
                Err(e) => {
                    assert(total > KVM_MAX_IRQ_ROUTES);
                    return Err(e);
                },
            }
            proof {
                let old_seen = seen;
                seen = seen.push(*entry);
                assert(seen =~= it.seq().take(it.index() + 1).unref());
                if it.index() + 1 == it.seq().len() {
                    assert(seen =~= it.seq().unref());
                }
                assert(prefix + seen.map_values(|e| route_item(e)) =~= (prefix
                    + old_seen.map_values(|e| route_item(e))).push(route_item(*entry)));
            }
        }
        assert(seen.len() == self.msi_routes().dom().len());
        proof {
            let t = kvm_routing_entries(table);
            let n = self.initial_len() as int;
            assert forall|i: int|
                0 <= i < self.irqchip_routes().len() && (#[trigger] self.irqchip_routes()[i]).type_
                    == KvmGsiRoutingEntryType::Irqchip implies (self.irqchip_routes()[i].u matches KvmGsiRoutingEntryU::Irqchip { irqchip, pin } ==> t[n + i]
                    == (self.irqchip_routes()[i].gsi, 1u32, irqchip, pin, 0u32)) by {
                lemma_route_fields(self.irqchip_routes()[i]);
                assert(t[n + i] == route_item(self.irqchip_routes()[i]));
            }
            assert forall|g: u32|
                #[trigger] self.msi_routes().contains_key(g) && self.msi_routes()[g].type_
                    == KvmGsiRoutingEntryType::Msi implies (self.msi_routes()[g].u matches KvmGsiRoutingEntryU::Msi { address_lo, address_hi, data } ==> t.contains(
                    (self.msi_routes()[g].gsi, 2u32, address_lo, address_hi, data),
                )) by {
                let e = self.msi_routes()[g];
                lemma_route_fields(e);
                assert(self.msi_routes().values().contains(e));
                assert(seen.to_set().contains(e));
                let i = choose|i: int| 0 <= i < seen.len() && seen[i] == e;
                let k = prefix.len() + i;
                assert(t[k] == route_item(e));
            }
        }
        Ok(table)
    }

    /// Removes the message-signalled route of `gsi`; tells whether there was one.
    pub fn remove_msi_gsi_routing(&mut self, gsi: u32) -> (removed: bool)
        requires
            old(self).wf(),
        ensures
            final(self).wf(),
            removed <==> old(self).msi_routes().contains_key(gsi),
            final(self).msi_routes() == old(self).msi_routes().remove(gsi),
            final(self).irqchip_routes() == old(self).irqchip_routes(),
            final(self).initial_len() == old(self).initial_len(),
    {
        self.msi_entryies.remove(&gsi).is_some()
    }
}

} // verus!

verus! {

/// After a message-signalled route of `gsi` is set, setting the same route again changes
/// nothing (and so reports no change), and removing the route of `gsi` finds it (and so reports
/// a removal) and leaves no route of `gsi`, so that a second removal reports nothing.
pub proof fn lemma_msi_route_set_then_remove(
    routes: Map<u32, KvmGsiRoutingEntry>,
    gsi: u32,
    address_lo: u32,
    address_hi: u32,
    data: u32,
)
    ensures
        ({
            let e = msi_entry(gsi, address_lo, address_hi, data);
            let set = routes.insert(gsi, e);
            &&& set.contains_key(gsi) && set[gsi] == e
            &&& set.insert(gsi, e) == set
            &&& !set.remove(gsi).contains_key(gsi)
            &&& set.remove(gsi) == routes.remove(gsi)
        }),
{
    let e = msi_entry(gsi, address_lo, address_hi, data);
    let set = routes.insert(gsi, e);
    assert(set.insert(gsi, e) =~= set);
    assert(set.remove(gsi) =~= routes.remove(gsi));
}

} // verus!
