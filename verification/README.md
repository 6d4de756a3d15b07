# trustlet_monitor

The decisions of a monitor that runs trustlets one privilege level below itself, written and proved
in [Verus](https://github.com/verus-lang/verus).

A zygote is a process that the guest loads into the monitor. A trustlet is made from a zygote. Both
make their requests with the `cpuid` instruction: memory, file mappings, protection keys, results.
The guest has requests of its own: it makes and deletes processes, lets a trustlet run, joins the
output of one to the input of another, and asks for reports that say what was measured.

## Layout

* `src/` is the verified library. It holds the state of the monitor and every decision. What has to
  be done to page tables, memory and devices leaves it as a list of `Effect` values, in order. What
  has to be read from them is asked for by the result of a step, and the function that continues
  takes the answer.
* `app/` drives the library on a machine, which it knows through two traits.
* `tests/` runs the library on concrete values.

| module | what it decides |
|--------|-----------------|
| `pal_call`, `pal_state`, `runtime` | how each request of a trustlet is served |
| `pal_laws` | what holds whatever a trustlet asks for |
| `mpk_memory`, `mpk_laws`, `pkru` | protection keys, their memory, and which domain is open |
| `mmap` | which file an address belongs to |
| `invocation`, `input` | how a trustlet gets its input, its answers and the pages of its files |
| `process`, `process_cow` | which processes exist, and what a new one starts with |
| `exception_handling` | the tables by which exceptions reach the monitor |
| `measurements`, `attestation` | what was measured, and what a report says of it |
| `monitor`, `call_handler` | the requests of the guest |
| `smp` | which processors are started |

The contracts of the functions that change a trustlet speak of `pal_state::PalState`: each request is
a function from the state before it to the state after it and to how the run goes on.
