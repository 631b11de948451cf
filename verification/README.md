# Regtest channel opener

The opener compares two ways to fund a Lightning channel on Bitcoin Core regtest: a normal
transaction that the initiator funds alone, and a private one to which the counterparty adds an
input without getting channel balance for it.

`src/` is the verified library. It decides everything and touches nothing outside:

- `config` reads the command line, and `help` lists what it accepts;
- `opener` is the course of an opening: it asks for one action at a time, takes the answer, and says
  what to print and what to do next;
- `course` states what holds of every opening, whatever the answers are;
- `funding` finds the output of a wallet transaction that pays to a peer, in the JSON of `json`;
- `keys` makes the test keys and addresses of the peers;
- `transaction`, `script` and `report` describe transactions and write what is printed;
- `wallet` names the temporary wallet and makes its URL;
- `text` and `error` are shared by all of them.

`app/` performs the actions: it reads the arguments and the answers of the node, and drives the
wallets and the directory of `lightning_payjoin_kit`, the payjoin library that the opener
demonstrates. `tests/` runs the library.
