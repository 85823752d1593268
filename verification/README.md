# auvro

The verified core of the AuvroAI desktop chat client, written in Verus.

- `src/` is the library. Every decision of the client is a verified
  function with a contract: the chat state and its transitions
  (`chat_state`, `actions`, `requests`, `events`, `streaming`, `auth`,
  `forms`, `startup`), the chat-completion pipeline (`chat_pipeline`,
  `provider`, `ai`), the response cache (`response_cache`), the model list
  (`model_metadata`), the secret store and its encrypted file
  (`secrets`, `keychain`, `secret_crypto`, `secret_map`), and the text helpers they rest
  on (`text`, `json`, `message_blocks`, `session`, `conversation_list`,
  `backend`). Calls into outside crates (uuid, chrono, base64, pbkdf2,
  aes-gcm, rand, serde_json, blake3, keyring, dirs, tokio-util) stand
  behind small trusted wrappers whose contracts say what the crates
  document. Public `law_*` proof functions state the properties that hold
  across calls.
- `tests/` runs the library on concrete values.
- `app/` is the desktop program around it: the egui window, the HTTP calls
  to Supabase and the chat providers, the provider thread, and the secrets
  file on disk. It carries out the effects that the library's state
  transitions return and hands the answers back as events.
