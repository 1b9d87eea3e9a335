# turnkey_rs

A Verus-verified library for automating Turnkey wallets.

- `utils::wallet` — account parameters (curve, BIP32 path, address format)
  for Ethereum, Cosmos, Tron, Solana, Sui, Aptos, Stellar, TON, Dogecoin and
  the four Bitcoin networks; paths are `m/{purpose}'/{coin}'/{index}'{rest}`.
- `client` — the `Turnkey` client, its configuration and the request stamp
  (P-256 signature, JSON, base64url).
- `functions::create_wallet` — wallet-creation requests and their JSON body,
  and the address checks on the reply (Ethereum, Solana, Bitcoin types).
- `bytes`, `json`, `text` — hexadecimal, JSON string literals, decimals.
- `blueprint` — the greeting job.

`app/` holds the program around it: the job runner entry point, serde
copies of the wire types and wallet creation over a caller-supplied HTTP
transport.
