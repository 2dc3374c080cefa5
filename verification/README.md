# lab_inventory

The request rules of a laboratory inventory server, verified with Verus: how
inventory items are patched, split, merged and listed; the status and message
each failure is answered with; and the federation protocol through which two
deployments pair, sign their requests to each other, read each other's public
inventory and borrow from each other.

- `src/` is the verified library. Each operation of the server that alternates
  between database or network work and decisions has its decisions here, one
  function per step, each taking what the previous lookup found.
- `app/` holds what stays outside the verifier: the rules on decimal amounts,
  the JSON documents written to the audit log, and the driver that runs the
  steps proving an inbound federation request against a store of nodes,
  trusts and nonces.
- `tests/` runs the library on concrete requests.
