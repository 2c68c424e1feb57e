# lebontroc

Les règles métier de Lebontroc, plateforme de troc d'objets entre
particuliers (« ça contre ça », soulte séquestrée optionnelle, remise en main
propre ou envoi croisé), écrites en Verus : chaque fonction porte son contrat
(`requires` / `ensures`) et Verus le prouve.

## Organisation

- `src/` — la bibliothèque vérifiée.
  - Règles de base : `auth`, `catalog`, `trade`, `payment`, `shipping`,
    `review`, `dispute`, `notification`, `admin`, `health`, `moderation`.
  - Parcours : `echanges` (propositions, plan des paiements, règlement),
    `parcours_troc` (confirmation, annulation, envoi), `litiges`
    (dossiers, signalements, sanctions), `maintenance` (tâches périodiques),
    `messagerie`, `vue_troc`, `evaluations`, `vitrine`, `annonces`,
    `jointures`, `categories`, `administration`.
  - Comptes et secrets : `session` (cookies, verrouillage, rotation des
    jetons, vérification d'e-mail, JWT), `double_auth`, `secrets`
    (Argon2id, TOTP, QR code), `jetons` (SHA-256, base64url, UUID), `debit`
    (limitation de débit par origine), `configuration`.
  - Outils : `texte`, `erreurs` (réponses d'erreur de l'API), `dto`.
- Les lois du domaine sont des fonctions `proof` publiques, à côté des
  fonctions dont elles parlent.
- Les appels aux bibliothèques externes (regex, sha2, base64, rand, uuid,
  argon2, totp-rs, qrcode, jsonwebtoken, chrono) passent par de petites fonctions
  `#[verifier::external_body]` dont le commentaire dit ce que le contrat
  affirme de la bibliothèque.
- `tests/` — les tests, un fichier par module.
- `app/` — le programme autour de la bibliothèque : lecture de la
  configuration, sérialisation JSON (serde), conversions UUID et dates
  (uuid, chrono), distance
  géographique (nombres flottants).

Identifiants : entiers 128 bits (les octets de l'UUID). Instants :
nanosecondes depuis l'époque Unix (`i128`), ou secondes quand la règle
parle en secondes.
