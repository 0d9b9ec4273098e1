# hpdp_types

Evaluation of XACML attribute functions for a policy decision point that
works over plain and homomorphically encrypted attribute values.

- `src/` is the verified library (Verus):
  - `constants`, `xacml_types`: function URNs, data-type identifiers and the
    parts of policies and requests that the decision point reads;
  - `lexical`, `transform`: reading attribute texts (times, dates, durations,
    DNS and X.500 names) into plain values;
  - `intermediate`, `plain_*`: plain values and their evaluator;
  - `cipher`, `enc*`: encrypted values, described by the homomorphic
    computation that yields them, and their evaluator;
  - `agreement`: what an encrypted result means once decrypted, and the
    proof that encrypted evaluation refines plain evaluation: for a function
    in which neither e-mail name equality nor integer-mod occurs, applied to
    encryptions of arguments on which the plain evaluation succeeds, the
    encrypted evaluation succeeds and yields an encryption of the plain
    result (e-mail name equality compares domains exactly when encrypted and
    without regard to case when plain; integer-mod is served only in plain);
  - `mixed`: evaluation over arguments of which some are encrypted;
  - `drill`, `context`: extraction of policy values under fresh keys, and
    their lookup by key;
  - `reduce`: pairwise (balanced) reduction.
- `tests/`: tests of the library on concrete values.
- `app/`: a command-line benchmark of the evaluators.
