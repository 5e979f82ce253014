# uccbot

A Discord bot for a university computer club: members link their Discord
account to their club account with an emailed token, propose motions and
polls that are decided by reaction votes, pick roles by reacting to
messages, and keep a small profile.

- `src/` is the library, written in Verus: every function there carries a
  contract that Verus proves, from the sign-up tokens (`tokens`) and the vote
  counting (`voting`) to the texts and embeds the bot sends. Calls into
  outside crates (openssl, base64, chrono, rand, url, regex, indexmap,
  serenity's `MessageBuilder`) stand behind small trusted wrappers whose
  contracts say what those crates do.
- `app/` is the bot itself: it talks to Discord through serenity, to the
  member database through diesel, to LDAP, and to the `tla`, `cowsay`,
  `fortune` and `mutt` programs, and asks the library what to do.
- `tests/` runs the library on concrete inputs.
