# s390x_stack

Frame layout for coroutine stacks on s390x, verified with Verus.

- `src/frame.rs`: pushing words and placing objects on a downward-growing
  stack, with the alignment rules for both.
- `src/init.rs`: the initial frame of a coroutine (initial function, parent
  link, initial object, initial PC and padding) and the address of the
  initial object that is dropped when a coroutine never runs.
- `src/trap.rs`: the registers with which a trap handler is entered.
- `src/switch.rs`: what a switch into a coroutine hands back.

`app/` stores the computed words, holds the s390x assembly, and keeps the
stand-alone programs that exercised the switching code.
