# percolator_nft

The NFT program's view of a Percolator v16 portfolio account, verified with Verus.

- `src/le_codec.rs` — little-endian integers as byte strings (`le_value`,
  `le_bytes`), their round-trip laws, and the verified encoder/decoder the pod
  wrappers use.
- `src/slab_types_v16.rs` — the pod scalar wrappers, the engine structs with
  their byte images (`image`), field offsets and sizes (`lemma_layout`), the
  unambiguity of each image (`lemma_image_determines`), `decode_portfolio`
  with its exact outcome (`decode_result`), and the transfer-gate queries.
- `src/transfer_hook.rs` — the ExtraAccountMetaList address derivation (through
  `Pubkey::try_find_program_address`) and the `Execute` handler, which rejects
  every transfer.
- `app/lib.rs` — Solana glue: `Pubkey`/`AccountInfo` signatures, logging, and
  the runtime `ProgramError`.
