use vstd::prelude::*;

use crate::virtualization::kvm::gsi_routing::intx_entry;
use crate::virtualization::kvm::gsi_routing::KvmGsiRouting;
use crate::virtualization::kvm::gsi_routing::KvmGsiRoutingEntry;
use crate::virtualization::kvm::gsi_routing::KvmGsiRoutingEntryType;
use crate::virtualization::kvm::gsi_routing::KvmGsiRoutingEntryU;

verus! {

pub const IRQCHIP_MASTER: u32 = 0;

pub const IRQCHIP_SLAVE: u32 = 1;

pub const IRQCHIP_IOAPIC: u32 = 2;

/// The legacy routes of a PC: pins 0..8 but the cascade pin 2 of the master PIC, pins 0..8 of
/// the slave PIC for interrupts 8..16, and the 24 pins of the IOAPIC, where interrupt 0 goes to
/// pin 2 and pin 0 is not routed.
pub open spec fn x86_intx_routes() -> Seq<KvmGsiRoutingEntry> {
    let master = Seq::new(
        7,
        |j: int|
            {
                let i: u32 = if j < 2 {
                    j as u32
                } else {
                    (j + 1) as u32
                };
                intx_entry(i, IRQCHIP_MASTER, i)
            },
    );
    let slave = Seq::new(8, |j: int| intx_entry((j + 8) as u32, IRQCHIP_SLAVE, j as u32));
    let ioapic = Seq::new(
        23,
        |j: int|
            {
                if j == 0 {
                    intx_entry(0, IRQCHIP_IOAPIC, 2)
                } else if j == 1 {
                    intx_entry(1, IRQCHIP_IOAPIC, 1)
                } else {
                    intx_entry((j + 1) as u32, IRQCHIP_IOAPIC, (j + 1) as u32)
                }
            },
    );
    master + slave + ioapic
}

/// The route of `gsi` to pin `pin` of interrupt controller chip `irqchip`.
pub open spec fn is_pin_route(e: KvmGsiRoutingEntry, gsi: u32, irqchip: u32, pin: u32) -> bool {
    &&& e.gsi == gsi
    &&& e.type_ == KvmGsiRoutingEntryType::Irqchip
    &&& e.u == KvmGsiRoutingEntryU::Irqchip { irqchip, pin }
}

/// `routes` holds the route of `gsi` to pin `pin` of chip `irqchip`.
pub open spec fn routes_to(routes: Seq<KvmGsiRoutingEntry>, gsi: u32, irqchip: u32, pin: u32) -> bool {
    exists|j: int| 0 <= j < routes.len() && is_pin_route(#[trigger] routes[j], gsi, irqchip, pin)
}

/// The legacy routes of a PC, as they are: every route goes to a pin of a chip; the master PIC
/// (chip 0) takes interrupts 0..8 on the pin of the same number, but not interrupt 2 (its
/// cascade); the slave PIC (chip 1) takes interrupts 8..16 on pins 0..8; the IOAPIC (chip 2)
/// takes interrupt 0 on pin 2 (the timer's override) and every other interrupt 1..24 but 2 on the
/// pin of the same number, so no route goes to its pin 0; and each of these routes is there.
pub proof fn lemma_x86_legacy_routes()
    ensures
        x86_intx_routes().len() == 38,
        forall|j: int|
            0 <= j < x86_intx_routes().len() ==> {
                let e = #[trigger] x86_intx_routes()[j];
                &&& e.type_ == KvmGsiRoutingEntryType::Irqchip
                &&& e.u matches KvmGsiRoutingEntryU::Irqchip { irqchip, pin } && {
                    ||| irqchip == 0 && pin == e.gsi && e.gsi < 8 && e.gsi != 2
                    ||| irqchip == 1 && e.gsi >= 8 && pin == e.gsi - 8 && e.gsi < 16
                    ||| irqchip == 2 && e.gsi == 0 && pin == 2
                    ||| irqchip == 2 && 0 < e.gsi < 24 && e.gsi != 2 && pin == e.gsi
                }
            },
        x86_intx_routes().contains(
            KvmGsiRoutingEntry {
                gsi: 0,
                type_: KvmGsiRoutingEntryType::Irqchip,
                u: KvmGsiRoutingEntryU::Irqchip { irqchip: 2, pin: 2 },
            },
        ),
        forall|g: u32| g < 8 && g != 2 ==> #[trigger] routes_to(x86_intx_routes(), g, 0, g),
        forall|g: u32|
            8 <= g < 16 ==> #[trigger] routes_to(x86_intx_routes(), g, 1, (g - 8) as u32),
        forall|g: u32| 0 < g < 24 && g != 2 ==> #[trigger] routes_to(x86_intx_routes(), g, 2, g),
{
    let r = x86_intx_routes();
    assert(r[15] == KvmGsiRoutingEntry {
        gsi: 0,
        type_: KvmGsiRoutingEntryType::Irqchip,
        u: KvmGsiRoutingEntryU::Irqchip { irqchip: 2, pin: 2 },
    });
    assert forall|g: u32| g < 8 && g != 2 implies #[trigger] routes_to(r, g, 0, g) by {
        let j: int = if g < 2 { g as int } else { g - 1 };
        assert(is_pin_route(r[j], g, 0, g));
    }
    assert forall|g: u32| 8 <= g < 16 implies #[trigger] routes_to(r, g, 1, (g - 8) as u32) by {
        let j: int = g - 1;
        assert(is_pin_route(r[j], g, 1, (g - 8) as u32));
    }
    assert forall|g: u32| 0 < g < 24 && g != 2 implies #[trigger] routes_to(r, g, 2, g) by {
        let j: int = if g < 2 { 15 + g } else { 14 + g };
        assert(is_pin_route(r[j], g, 2, g));
    }
}

/// The interrupt routes that an x86_64 machine starts with.
pub fn new_irq_gsi_routing() -> (r: KvmGsiRouting)
    ensures
        r.wf(),
        r.irqchip_routes() == x86_intx_routes(),
        r.msi_routes() == Map::<u32, KvmGsiRoutingEntry>::empty(),
        r.initial_len() == 0,
        routes_to(r.irqchip_routes(), 0, IRQCHIP_IOAPIC, 2),
        forall|g: u32|
            0 < g < 24 && g != 2 ==> #[trigger] routes_to(r.irqchip_routes(), g, IRQCHIP_IOAPIC, g),
{
    proof {
        lemma_x86_legacy_routes();
        let e = KvmGsiRoutingEntry {
            gsi: 0,
            type_: KvmGsiRoutingEntryType::Irqchip,
            u: KvmGsiRoutingEntryU::Irqchip { irqchip: 2, pin: 2 },
        };
        let j = choose|j: int| 0 <= j < x86_intx_routes().len() && x86_intx_routes()[j] == e;
        assert(is_pin_route(x86_intx_routes()[j], 0, 2, 2));
    }
    let mut gsi_routing = KvmGsiRouting::default();
    let ghost master = x86_intx_routes().subrange(0, 7);
    let ghost slave = x86_intx_routes().subrange(7, 15);
    let ghost ioapic = x86_intx_routes().subrange(15, 38);

    let mut i: u32 = 0;
    while i < 8
        invariant
            0 <= i <= 8,
            gsi_routing.wf(),
            gsi_routing.msi_routes() == Map::<u32, KvmGsiRoutingEntry>::empty(),
            gsi_routing.initial_len() == 0,
            master == x86_intx_routes().subrange(0, 7),
            gsi_routing.irqchip_routes() == master.subrange(
                0,
                if i <= 2 {
                    i as int
                } else {
                    i - 1
                },
            ),
        decreases 8 - i,
    {
        if i != 2 {
            let ghost before = gsi_routing.irqchip_routes();
            gsi_routing.add_intx_gsi_routing(i, IRQCHIP_MASTER, i);
            let ghost k: int = if i < 2 {
                i as int
            } else {
                i - 1
            };
            assert(gsi_routing.irqchip_routes() =~= master.subrange(0, k + 1));
        }
        i += 1;
    }
    let mut i: u32 = 8;
    while i < 16
        invariant
            8 <= i <= 16,
            gsi_routing.wf(),
            gsi_routing.msi_routes() == Map::<u32, KvmGsiRoutingEntry>::empty(),
            gsi_routing.initial_len() == 0,
            master == x86_intx_routes().subrange(0, 7),
            slave == x86_intx_routes().subrange(7, 15),
            gsi_routing.irqchip_routes() == master + slave.subrange(0, i - 8),
        decreases 16 - i,
    {
        gsi_routing.add_intx_gsi_routing(i, IRQCHIP_SLAVE, i - 8);
        assert(gsi_routing.irqchip_routes() =~= master + slave.subrange(0, i - 7));
        i += 1;
    }
    let mut i: u32 = 0;
    while i < 24
        invariant
            0 <= i <= 24,
            gsi_routing.wf(),
            gsi_routing.msi_routes() == Map::<u32, KvmGsiRoutingEntry>::empty(),
            gsi_routing.initial_len() == 0,
            master == x86_intx_routes().subrange(0, 7),
            slave == x86_intx_routes().subrange(7, 15),
            ioapic == x86_intx_routes().subrange(15, 38),
            gsi_routing.irqchip_routes() == master + slave + ioapic.subrange(
                0,
                if i <= 2 {
                    i as int
                } else {
                    i - 1
                },
            ),
        decreases 24 - i,
    {
        if i == 0 {
            gsi_routing.add_intx_gsi_routing(i, IRQCHIP_IOAPIC, 2);
            assert(gsi_routing.irqchip_routes() =~= master + slave + ioapic.subrange(0, 1));
        } else if i != 2 {
            gsi_routing.add_intx_gsi_routing(i, IRQCHIP_IOAPIC, i);
            let ghost k: int = if i < 2 {
                i as int
            } else {
                i - 1
            };
            assert(gsi_routing.irqchip_routes() =~= master + slave + ioapic.subrange(0, k + 1));
        }
        i += 1;
    }
    assert(x86_intx_routes() =~= master + slave + ioapic.subrange(0, 23));
    gsi_routing
}

} // verus!
