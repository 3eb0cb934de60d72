//! The playlist lifecycle against a real in-memory SQLite store: the
//! library plans the writes, the test executes them inside one
//! transaction, and what comes back is checked by the library.

use ekkles_data::playlist::{
    PlaylistItemKind, PlaylistItemMetadata, PlaylistMetadata, PlaylistMetadataStatus, SavePlan,
};
use sqlx::{Row, SqlitePool};

fn block_on<T>(fut: impl std::future::Future<Output = T>) -> T {
    tokio::runtime::Runtime::new()
        .expect("běhové prostředí musí jít spustit")
        .block_on(fut)
}

async fn setup_db() -> SqlitePool {
    let pool = SqlitePool::connect("sqlite::memory:").await.unwrap();
    sqlx::query(
        "
        CREATE TABLE songs (
            id INTEGER PRIMARY KEY AUTOINCREMENT,
            title TEXT NOT NULL UNIQUE,
            author TEXT,
            part_order TEXT NOT NULL
        );
        CREATE TABLE playlists (
            id INTEGER PRIMARY KEY AUTOINCREMENT,
            name TEXT NOT NULL UNIQUE,
            created TEXT NOT NULL DEFAULT CURRENT_TIMESTAMP
        );
        CREATE TABLE playlist_parts (
            playlist_id INTEGER NOT NULL,
            part_order INTEGER NOT NULL,
            kind TEXT NOT NULL CHECK (kind IN ('song', 'bible')),
            PRIMARY KEY (playlist_id, part_order),
            FOREIGN KEY (playlist_id) REFERENCES playlists (id) ON DELETE CASCADE
        );
        CREATE TABLE playlist_songs (
            playlist_id INTEGER NOT NULL,
            part_order INTEGER NOT NULL,
            song_id INTEGER NOT NULL,
            PRIMARY KEY (playlist_id, part_order),
            FOREIGN KEY (playlist_id) REFERENCES playlists (id) ON DELETE CASCADE,
            FOREIGN KEY (song_id) REFERENCES songs (id)
        );
        CREATE TABLE playlist_passages (
            playlist_id INTEGER NOT NULL,
            part_order INTEGER NOT NULL,
            translation_id INTEGER NOT NULL,
            start_book_id INTEGER NOT NULL,
            start_chapter INTEGER NOT NULL,
            start_number INTEGER NOT NULL,
            end_book_id INTEGER NOT NULL,
            end_chapter INTEGER NOT NULL,
            end_number INTEGER NOT NULL,
            PRIMARY KEY (playlist_id, part_order),
            FOREIGN KEY (playlist_id) REFERENCES playlists (id) ON DELETE CASCADE
        );
        INSERT INTO songs (id, title, part_order) VALUES (5, 'Píseň', 'V1');
        ",
    )
    .execute(&pool)
    .await
    .unwrap();
    pool
}

/// Runs the playlist's save plan against the store, in one transaction.
async fn run_save(pool: &SqlitePool, playlist: &mut PlaylistMetadata) -> u64 {
    let mut statements: u64 = 0;
    match playlist.save_plan() {
        SavePlan::NoWrites => {}
        SavePlan::CreateNew { name, created, rows } => {
            let mut tx = pool.begin().await.unwrap();
            let id = sqlx::query("INSERT INTO playlists (name, created) VALUES ($1, $2)")
                .bind(&name)
                .bind(created.to_string())
                .execute(&mut *tx)
                .await
                .unwrap()
                .last_insert_rowid();
            statements += 1;
            statements += insert_rows(&mut tx, id, &rows).await;
            tx.commit().await.unwrap();
            playlist.mark_clean(id);
        }
        SavePlan::Rewrite { id, name, rows } => {
            let mut tx = pool.begin().await.unwrap();
            sqlx::query("UPDATE playlists SET name = $1 WHERE id = $2")
                .bind(&name)
                .bind(id)
                .execute(&mut *tx)
                .await
                .unwrap();
            for q in [
                "DELETE FROM playlist_parts WHERE playlist_id = $1",
                "DELETE FROM playlist_songs WHERE playlist_id = $1",
                "DELETE FROM playlist_passages WHERE playlist_id = $1",
            ] {
                sqlx::query(q).bind(id).execute(&mut *tx).await.unwrap();
            }
            statements += 4;
            statements += insert_rows(&mut tx, id, &rows).await;
            tx.commit().await.unwrap();
            playlist.mark_clean(id);
        }
    }
    statements
}

async fn insert_rows(
    tx: &mut sqlx::Transaction<'_, sqlx::Sqlite>,
    id: i64,
    rows: &[(u32, PlaylistItemMetadata)],
) -> u64 {
    let mut statements: u64 = 0;
    for (position, item) in rows {
        sqlx::query("INSERT INTO playlist_parts (playlist_id, part_order, kind) VALUES ($1, $2, $3)")
            .bind(id)
            .bind(*position as i64)
            .bind(item.kind().as_db_value())
            .execute(&mut **tx)
            .await
            .unwrap();
        statements += 1;
        match item {
            PlaylistItemMetadata::Song(song_id) => {
                sqlx::query(
                    "INSERT INTO playlist_songs (playlist_id, part_order, song_id) VALUES ($1, $2, $3)",
                )
                .bind(id)
                .bind(*position as i64)
                .bind(*song_id)
                .execute(&mut **tx)
                .await
                .unwrap();
                statements += 1;
            }
            PlaylistItemMetadata::BiblePassage { translation_id, from, to } => {
                let (fb, fc, fv) = from.destructure();
                let (tb, tc, tv) = to.destructure();
                sqlx::query(
                    "INSERT INTO playlist_passages (playlist_id, part_order, translation_id, \
                     start_book_id, start_chapter, start_number, end_book_id, end_chapter, end_number) \
                     VALUES ($1, $2, $3, $4, $5, $6, $7, $8, $9)",
                )
                .bind(id)
                .bind(*position as i64)
                .bind(*translation_id)
                .bind(fb as i64)
                .bind(fc as i64)
                .bind(fv as i64)
                .bind(tb as i64)
                .bind(tc as i64)
                .bind(tv as i64)
                .execute(&mut **tx)
                .await
                .unwrap();
                statements += 1;
            }
        }
    }
    statements
}

/// Loads a playlist's items back through the library's checks.
async fn load_items(pool: &SqlitePool, id: i64) -> Result<Vec<PlaylistItemMetadata>, String> {
    let exists = sqlx::query("SELECT id FROM playlists WHERE id = $1")
        .bind(id)
        .fetch_optional(pool)
        .await
        .unwrap();
    if exists.is_none() {
        return Err(String::from("playlist nebyl nalezen"));
    }
    let parts = sqlx::query(
        "SELECT part_order, kind FROM playlist_parts WHERE playlist_id = $1 ORDER BY part_order ASC",
    )
    .bind(id)
    .fetch_all(pool)
    .await
    .unwrap();
    let mut items = Vec::new();
    for part in parts {
        let position: i64 = part.get(0);
        let kind_text: String = part.get(1);
        match PlaylistItemKind::from_db_value(&kind_text).map_err(|e| e.message().to_string())? {
            PlaylistItemKind::Song => {
                let row = sqlx::query(
                    "SELECT song_id FROM playlist_songs WHERE playlist_id = $1 AND part_order = $2",
                )
                .bind(id)
                .bind(position)
                .fetch_one(pool)
                .await
                .unwrap();
                items.push(PlaylistItemMetadata::Song(row.get::<i64, _>(0)));
            }
            PlaylistItemKind::BiblePassage => {
                panic!("tento test žádné pasáže neukládá");
            }
        }
    }
    Ok(items)
}

#[test]
fn save_and_load_round_trip() {
    block_on(async {
        let pool = setup_db().await;
        let mut playlist = PlaylistMetadata::new("X");
        playlist.push_song(5);
        run_save(&pool, &mut playlist).await;
        let id = match playlist.get_status() {
            PlaylistMetadataStatus::Clean(id) => id,
            other => panic!("po uložení má být playlist clean, je {:?}", other),
        };
        let items = load_items(&pool, id).await.unwrap();
        assert_eq!(items, vec![PlaylistItemMetadata::Song(5)]);
        let name: String = sqlx::query("SELECT name FROM playlists WHERE id = $1")
            .bind(id)
            .fetch_one(&pool)
            .await
            .unwrap()
            .get(0);
        assert_eq!(name, "X");
    });
}

#[test]
fn second_save_issues_no_writes() {
    block_on(async {
        let pool = setup_db().await;
        let mut playlist = PlaylistMetadata::new("X");
        playlist.push_song(5);
        let first = run_save(&pool, &mut playlist).await;
        assert!(first > 0);
        let status_before = playlist.get_status();
        let second = run_save(&pool, &mut playlist).await;
        assert_eq!(second, 0);
        assert_eq!(playlist.get_status(), status_before);
    });
}

#[test]
fn delete_removes_every_row() {
    block_on(async {
        let pool = setup_db().await;
        let mut playlist = PlaylistMetadata::new("X");
        playlist.push_song(5);
        run_save(&pool, &mut playlist).await;
        let id = playlist.delete_plan().unwrap();

        let mut tx = pool.begin().await.unwrap();
        for q in [
            "DELETE FROM playlist_parts WHERE playlist_id = $1",
            "DELETE FROM playlist_songs WHERE playlist_id = $1",
            "DELETE FROM playlist_passages WHERE playlist_id = $1",
            "DELETE FROM playlists WHERE id = $1",
        ] {
            sqlx::query(q).bind(id).execute(&mut *tx).await.unwrap();
        }
        tx.commit().await.unwrap();

        for table in ["playlist_parts", "playlist_songs", "playlist_passages"] {
            let rows = sqlx::query(&format!(
                "SELECT * FROM {} WHERE playlist_id = $1",
                table
            ))
            .bind(id)
            .fetch_all(&pool)
            .await
            .unwrap();
            assert!(rows.is_empty());
        }
        // a subsequent load finds nothing
        assert!(load_items(&pool, id).await.is_err());
    });
}

#[test]
fn positions_stay_gapless_after_delete_item() {
    block_on(async {
        let pool = setup_db().await;
        let mut playlist = PlaylistMetadata::new("X");
        playlist.push_song(5);
        playlist.push_song(5);
        playlist.push_song(5);
        run_save(&pool, &mut playlist).await;
        playlist.delete_item(1).unwrap();
        run_save(&pool, &mut playlist).await;
        let id = playlist.delete_plan().unwrap();
        let rows = sqlx::query(
            "SELECT part_order FROM playlist_parts WHERE playlist_id = $1 ORDER BY part_order ASC",
        )
        .bind(id)
        .fetch_all(&pool)
        .await
        .unwrap();
        let positions: Vec<i64> = rows.iter().map(|r| r.get(0)).collect();
        assert_eq!(positions, vec![0, 1]);
    });
}
