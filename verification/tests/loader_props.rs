use borkcraft::loader::BulkLoader;
use borkcraft::page::setup_displayables;
use borkcraft::portals::{NetherPortalText, NetherPortals, PortalText};
use borkcraft::thread_tools::drain_available;

fn record(i: i32) -> NetherPortalText {
    NetherPortalText {
        id: i,
        overworld: PortalText {
            xcord: i,
            ycord: 64,
            zcord: -i,
            locale: "plains".to_string(),
            owner: "Luke".to_string(),
            notes: String::new(),
            true_name: format!("ow{:02}", i),
        },
        nether: PortalText {
            xcord: i / 8,
            ycord: 64,
            zcord: -i / 8,
            locale: "wastes".to_string(),
            owner: "Luke".to_string(),
            notes: String::new(),
            true_name: format!("nether{:02}", i),
        },
        username: String::new(),
    }
}

/// A stand-in for the remote table: twelve records served in pages of the
/// asked size, with the short page ending the feed.
fn serve_page(total: i32, served: &mut i32, limit: usize) -> Vec<NetherPortalText> {
    let mut page = Vec::new();
    while page.len() < limit && *served < total {
        page.push(record(*served));
        *served += 1;
    }
    page
}

#[test]
fn estimate_twelve_pages_of_five_stream_all_twelve() {
    let comm: borkcraft::thread_tools::Communicator<NetherPortalText> =
        borkcraft::thread_tools::Communicator::new();
    let sender = comm.downloader_sender_clone();

    let mut loader = BulkLoader::plan(12, 5).unwrap();
    let mut served = 0;
    let mut offsets = Vec::new();
    let mut page_sizes = Vec::new();

    while let Some(offset) = loader.next_offset() {
        offsets.push(offset);
        let page = serve_page(12, &mut served, 5);
        page_sizes.push(page.len());
        let sent = loader.accept_page(page, &sender).unwrap();
        assert_eq!(sent, *page_sizes.last().unwrap());
    }

    // three fetches at the sentinel offset, pages of 5, 5 and 2,
    // the 2-length page ending the stream
    assert_eq!(offsets, vec![-1, -1, -1]);
    assert_eq!(page_sizes, vec![5, 5, 2]);
    assert_eq!(loader.pages_fetched(), 3);
    assert_eq!(loader.items_streamed(), 12);
    assert!(loader.is_done());

    // every streamed record reaches the cache: exactly twelve ingestions
    let batch = drain_available(comm.downloader_receiver(), 1000);
    assert_eq!(batch.len(), 12);
    let mut nps = NetherPortals::default();
    let mut ingest_calls = 0;
    for npt in batch {
        nps.consume_npt(npt);
        ingest_calls += 1;
    }
    assert_eq!(ingest_calls, 12);
    setup_displayables(&mut nps);
    assert_eq!(nps.overworld_ref().len(), 12);
    assert_eq!(nps.nether_ref().len(), 12);
}

#[test]
fn an_exact_multiple_needs_one_empty_final_page() {
    let comm: borkcraft::thread_tools::Communicator<NetherPortalText> =
        borkcraft::thread_tools::Communicator::new();
    let sender = comm.downloader_sender_clone();

    let mut loader = BulkLoader::plan(10, 5).unwrap();
    let mut served = 0;
    let mut pages = 0;
    while loader.next_offset().is_some() {
        let page = serve_page(10, &mut served, 5);
        loader.accept_page(page, &sender).unwrap();
        pages += 1;
    }
    // pages of 5, 5 and 0: the empty follow-up page ends the feed
    assert_eq!(pages, 3);
    assert_eq!(loader.items_streamed(), 10);
}

#[test]
fn an_empty_estimate_is_an_empty_stream() {
    let loader = BulkLoader::plan(0, 5).unwrap();
    assert!(loader.is_done());
    assert!(loader.next_offset().is_none());
    assert_eq!(loader.items_streamed(), 0);

    let negative = BulkLoader::plan(-3, 5).unwrap();
    assert!(negative.is_done());
}

#[test]
fn a_large_estimate_is_refused() {
    assert!(BulkLoader::plan(101, 5).is_err());
    assert!(BulkLoader::plan(5000, 5).is_err());
    // exactly one hundred still takes the sequential strategy
    assert!(BulkLoader::plan(100, 5).is_ok());
}

#[test]
fn a_closed_ingestion_channel_aborts_the_load() {
    let sender = {
        let comm: borkcraft::thread_tools::Communicator<NetherPortalText> =
            borkcraft::thread_tools::Communicator::new();
        comm.downloader_sender_clone()
        // the communicator, receiver included, is dropped here
    };
    let mut loader = BulkLoader::plan(12, 5).unwrap();
    let mut served = 0;
    let page = serve_page(12, &mut served, 5);
    let r = loader.accept_page(page, &sender);
    assert!(r.is_err());
    // the abort ends the load: no further page is asked for
    assert!(loader.is_done());
    assert!(loader.next_offset().is_none());
}
