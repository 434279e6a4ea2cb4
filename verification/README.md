# dot15d4

An IEEE 802.15.4 stack core, verified with Verus: frame parsing and building,
radio timing and scheduling decisions for the nRF52840, a time base, MAC
decisions, and the synchronization state behind tasks and channels.

## Layout

- `src/` — the verified library.
  - `frame_control`, `addressing`, `parser/` — Frame Control field, addresses,
    addressing fields and MPDU readers/writers, with write/read laws.
  - `repr/` — frame representations (builders) and their lengths.
  - `driver`, `mpdu`, `frame` — radio frame buffers and their layout.
  - `time` — instants and durations over a tick frequency, with conversions.
  - `nrf/` — nRF52840 radio register settings, transition scheduling and the
    RTC-based alarm timer.
  - `mac` — frame filtering, acknowledgment and MLME/MCPS decisions, PIB.
  - `coprocessor` — the radio task loop as a step function.
  - `sync`, `channel` — tokens, a task mutex, and the state of a
    multi-producer, multi-consumer channel.
  - `text` — textual forms of frame fields.
- `tests/` — tests of the library.
- `app/` — what stays outside verification: floating-point time display and
  the nRF52840 peripheral glue (register writes, interrupts).

## Design notes

- **Channel collections.** The channel state keeps its queues of pending
  requests, pending responses and waiting senders, and its slot-availability
  maps, in `Vec`s. The state is generic over its capacities, and a name for
  what a fixed-capacity queue or bitmap of another crate holds would have to
  be generic over that capacity as well; the project keeps such names
  monomorphic. The invariant `State::wf` states what the fixed-capacity
  collections guaranteed: each queue holds distinct slots and fits its
  capacity, each map has one entry per slot, and an available slot is
  unused and empty.
- **Owned frame views.** Readers and writers such as `AddressingFields`,
  `FrameControl`, `ShortAddress`, `ExtendedAddress`, `PanId` and `ParsedMpdu`
  own their octets rather than borrowing the caller's buffer. Their setters
  change their own octets; `write_into` (and `set_u16_in` for short
  addresses and PAN IDs) writes them into a caller's buffer at an offset,
  leaving every other octet of it unchanged. Writes to a frame go through
  `MpduFrame` and `ParsedMpdu` (`write_frame_control`,
  `set_sequence_number`, `set_pdu_wo_fcs`, `set_frame_payload`, `set_fcs`).
- **Tasks and wakers.** Synchronization state hands back the identifiers of
  the tasks to wake instead of waking them. A locked `Mutex` lends its value
  to the guard, which dereferences to it; `unlock` takes the guard back and
  returns the value to the mutex. `Mutex::get_mut` reaches the value while
  no guard holds it.
