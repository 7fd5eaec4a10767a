# dasheri

A Solana program, written with Anchor, that sits in front of the mango markets
program: an IOU gateway (deposits into a mango account made through it are answered
with IOU tokens of a mint the gateway controls) and pools (an admin creates a pool with
a vault; users open pool accounts, deposit into the vault, and the pool opens a mango
account of its own).

The logic is a Verus-verified library under `src/`:

- `pubkey`, `layout`, `pool/state`, `iou/state`, `state`: addresses and the byte
  layout of the program's accounts, with read-back proofs.
- `account`, `address`, `init`: how each declared account is read and checked, the
  program derived and associated token addresses, and the creation of `init` accounts.
- `plan`: an instruction's course (its checks and steps, in order) and the plan made of
  it: the cross-program calls (and the logging of a mango account) to make, then the
  states to write or the error.
- `pool/instructions`, `iou/instructions`, `instructions`: the instructions, each as
  an accounts struct with `try_accounts` and a `handler`.
- `dasheri`: the program's entry points; `laws`: what holds across them; `runs`: what
  holds over any run of them (the IOU tokens minted are the quantities deposited; each
  gateway, pool and pool account is written only by its opening, at its address).
- `outside`: the trusted wrappers around the Solana and SPL token crates.

`app/` is the on-chain shell: it converts account infos for the library, makes the
planned calls and writes the planned states.
