# escalon_jobs

A cron job manager for a cluster of nodes.

- `src/` is the verified library: the jobs a node keeps (`job.rs`), the
  manager's settings and its typed builder (`manager.rs`), the operations on
  the kept jobs (`actions.rs`), the decisions taken when the scheduler fires
  a job or a run comes back (`handler.rs`), and the properties that relate
  these operations (`laws.rs`).
- `app/` drives the library: it holds the cron scheduler and the peer
  discovery server, calls the user's asynchronous hooks, and carries out what
  the library decides.
