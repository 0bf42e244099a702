# subscription_billing

A subscription billing system for Solana whose rules are verified with Verus.

- `src/` is the verified library: the account states (`state/`), the instructions
  (`instructions/`), the fee arithmetic (`math.rs`), the limits (`constants.rs`),
  the errors, the events, and `laws.rs`, which proves properties that hold across
  instructions (the fee cap, the revenue split, the subscriber limit, what
  cancelling undoes and forbids, what a renewal adds, how long a payment gives
  access).
- Each instruction that reads the cluster clock has a twin ending in `_at` that
  takes the time as an argument and has an exact contract; the clock itself is
  read through one trusted wrapper in `runtime.rs`.
- Instructions that take a payment come in two steps: `subscribe` /
  `process_renewal` decide and price the charge, the program moves the tokens,
  and `settle_subscription` / `settle_renewal` record it. Every instruction
  leaves its accounts unchanged when it fails, as a failed transaction does.
- `app/` is the Anchor program around the library: account validation (seeds,
  `has_one`, token account owners and mints), token transfers, storing accounts,
  events and logs.
- There is no instruction that updates a plan or withdraws platform fees; the
  event `PlatformFeesWithdrawn` and the errors `Unauthorized`,
  `SubscriptionExpired`, `InsufficientPayment` and `InsufficientBalance` are
  defined for them and not raised by any instruction here.
- The period bounds and the most periods per payment in `constants.rs` are
  values chosen for this crate.
