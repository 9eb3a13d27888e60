# ThetOS kernel, verified

A small real-time kernel for Cortex-M microcontrollers whose hardware-blind
core is specified and verified with Verus. The kernel reaches its context
switch and timer only through `devices`, which records each call it makes
with what it hands over; the kernel's contracts state those calls. What the
hardware then does with them (the PendSV switch itself, register and memory
accesses) lives in `app/` and is not verified.

- `src/` — the verified library:
  - `kernel` — task spawning with bump-allocated, disjoint stacks from a pool,
    tick handling, yielding and rescheduling;
  - `scheduler` — the fixed-priority preemptive policy (32 levels, one bounded
    FIFO ready queue per level) and its laws;
  - `hal` — the contracts the kernel is generic over (context switch, critical
    section, stack guard, system timer);
  - `devices` — the kernel's only way to the context switch and the timer,
    with the record of every call made;
  - `arch`, `bsp` — Cortex-M and Nucleo-L152RE logic: stack-guard verdicts,
    initial task images and the register values the drivers and handlers write;
  - `entry_attr` — the `#[entry(bsp = <crate>)]` attribute, over a token model.
- `tests/` — host tests of the library.
- `app/` — the hardware side: MMIO, inline assembly, exception handlers,
  startup code and the board facade, built on the library.
